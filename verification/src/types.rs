//! Domain value types.
use vstd::prelude::*;
use vstd::string::*;
use vstd::utf8::*;
use crate::errors::CoreError;
use crate::ids::{new_id, Uuid};
use crate::text::{cat, dec_nat, hex_char, hex_value, u64_text};

verus! {

/// BLAKE3-256 content hash (32 bytes), stored as lowercase hexadecimal text.
#[derive(Clone, Copy, Debug, PartialEq, Eq, Hash)]
pub struct BlakeHash([u8; 32]);

/// Each byte as two lowercase hexadecimal digits, the high one first.
pub open spec fn hex_text(b: Seq<u8>) -> Seq<char> {
    Seq::new(
        2 * b.len(),
        |i: int|
            if i % 2 == 0 {
                hex_char(b[i / 2] as int / 16)
            } else {
                hex_char(b[i / 2] as int % 16)
            },
    )
}

/// The value of the byte of a lowercase hexadecimal digit.
pub open spec fn hex_byte(b: u8) -> Option<u8> {
    if b < 128 {
        hex_value(b as char)
    } else {
        None
    }
}

/// The first place from `from` on that holds no lowercase hexadecimal digit, or
/// the length where there is none.
pub open spec fn first_non_hex(b: Seq<u8>, from: int) -> int
    decreases b.len() - from,
{
    if from < 0 || from >= b.len() {
        b.len() as int
    } else if hex_byte(b[from]) is None {
        from
    } else {
        first_non_hex(b, from + 1)
    }
}

/// The thirty-two bytes that sixty-four digits spell.
pub open spec fn bytes_of_hex(b: Seq<u8>) -> Seq<u8> {
    Seq::new(32, |i: int| (hex_byte(b[2 * i])->0 * 16 + hex_byte(b[2 * i + 1])->0) as u8)
}

/// What a text says as a hash: its bytes, or the message of the refusal.
pub open spec fn parse_hash(s: Seq<char>) -> Result<Seq<u8>, Seq<char>> {
    let b = encode_utf8(s);
    if b.len() != 64 {
        Err("expected 64 chars, got "@ + dec_nat(b.len()))
    } else if first_non_hex(b, 0) < 64 {
        Err("invalid char at "@ + dec_nat(first_non_hex(b, 0) as nat))
    } else {
        Ok(bytes_of_hex(b))
    }
}

proof fn lemma_first_non_hex(b: Seq<u8>, from: int, upto: int)
    requires
        0 <= from <= upto <= b.len(),
        forall|i: int| from <= i < upto ==> hex_byte(#[trigger] b[i]) is Some,
    ensures
        first_non_hex(b, from) == first_non_hex(b, upto),
    decreases upto - from,
{
    if from < upto {
        assert(hex_byte(b[from]) is Some);
        lemma_first_non_hex(b, from + 1, upto);
    }
}

proof fn lemma_all_hex(b: Seq<u8>, from: int)
    requires
        0 <= from <= b.len(),
        first_non_hex(b, from) >= b.len(),
    ensures
        forall|i: int| from <= i < b.len() ==> hex_byte(#[trigger] b[i]) is Some,
    decreases b.len() - from,
{
    if from < b.len() {
        lemma_all_hex(b, from + 1);
    }
}

proof fn lemma_hex_char(d: int)
    requires
        0 <= d < 16,
    ensures
        hex_value(hex_char(d)) == Some(d as u8),
        (hex_char(d) as u32) < 128,
        hex_byte(hex_char(d) as u8) == Some(d as u8),
{
}

proof fn lemma_hex_byte(b: u8)
    requires
        hex_byte(b) is Some,
    ensures
        b < 128,
        hex_byte(b)->0 < 16,
        hex_char(hex_byte(b)->0 as int) == b as char,
{
}

/// Writing a hash and reading it back gives the same hash.
pub proof fn law_hash_text_round_trip(h: BlakeHash)
    ensures
        parse_hash(h.hex()) == Ok::<Seq<u8>, Seq<char>>(h@),
{
    let s = h.hex();
    assert(h@.len() == 32);
    assert forall|i: int| 0 <= i < s.len() implies (#[trigger] s[i] as u32) < 128 by {
        lemma_hex_char(h@[i / 2] as int / 16);
        lemma_hex_char(h@[i / 2] as int % 16);
    }
    assert(is_ascii_chars(s));
    is_ascii_chars_encode_utf8(s);
    let b = encode_utf8(s);
    assert forall|i: int| 0 <= i < 64 implies hex_byte(#[trigger] b[i]) == Some(
        (if i % 2 == 0 {
            h@[i / 2] as int / 16
        } else {
            h@[i / 2] as int % 16
        }) as u8,
    ) by {
        lemma_hex_char(h@[i / 2] as int / 16);
        lemma_hex_char(h@[i / 2] as int % 16);
        assert(b[i] == s[i] as u8);
    }
    lemma_first_non_hex(b, 0, 64);
    assert(bytes_of_hex(b) =~= h@) by {
        assert forall|i: int| 0 <= i < 32 implies bytes_of_hex(b)[i] == h@[i] by {
            assert(hex_byte(b[2 * i]) is Some);
            assert(hex_byte(b[2 * i + 1]) is Some);
            assert((2 * i) / 2 == i && (2 * i + 1) / 2 == i && (2 * i) % 2 == 0 && (2 * i + 1) % 2
                == 1);
        }
    }
}

/// A text that reads as a hash is the text of that hash, so each hash has one
/// text only.
pub proof fn law_hash_text_is_canonical(s: Seq<char>, h: BlakeHash)
    requires
        parse_hash(s) == Ok::<Seq<u8>, Seq<char>>(h@),
    ensures
        h.hex() == s,
{
    let b = encode_utf8(s);
    let t = h.hex();
    lemma_all_hex(b, 0);
    assert forall|i: int| 0 <= i < 64 implies t[i] == #[trigger] b[i] as char by {
        let k = i / 2;
        assert(hex_byte(b[2 * k]) is Some);
        assert(hex_byte(b[2 * k + 1]) is Some);
        lemma_hex_byte(b[2 * k]);
        lemma_hex_byte(b[2 * k + 1]);
        let hi = hex_byte(b[2 * k])->0 as int;
        let lo = hex_byte(b[2 * k + 1])->0 as int;
        assert(h@[k] == bytes_of_hex(b)[k]);
        assert(h@[k] as int == hi * 16 + lo);
        assert(h@[k] as int / 16 == hi && h@[k] as int % 16 == lo);
        assert(i == 2 * k || i == 2 * k + 1);
    }
    assert forall|i: int| 0 <= i < t.len() implies (#[trigger] t[i] as u32) < 128 by {
        assert(hex_byte(b[i]) is Some);
        lemma_hex_byte(b[i]);
    }
    is_ascii_chars_encode_utf8(t);
    assert(encode_utf8(t) =~= b) by {
        assert forall|i: int| 0 <= i < 64 implies encode_utf8(t)[i] == b[i] by {
            assert(hex_byte(b[i]) is Some);
            lemma_hex_byte(b[i]);
            assert(t[i] == b[i] as char);
        }
    }
    encode_utf8_decode_utf8(s);
    encode_utf8_decode_utf8(t);
}

/// Two hashes with the same text are the same hash.
pub proof fn law_hash_text_injective(a: BlakeHash, b: BlakeHash)
    ensures
        a.hex() == b.hex() ==> a == b,
{
    if a.hex() == b.hex() {
        law_hash_text_round_trip(a);
        law_hash_text_round_trip(b);
        assert(a.0@ =~= b.0@);
        assert(a.0 =~= b.0);
    }
}

impl View for BlakeHash {
    type V = Seq<u8>;

    closed spec fn view(&self) -> Seq<u8> {
        self.0@
    }
}

impl BlakeHash {
    /// The sixty-four lowercase hexadecimal digits of this hash.
    pub open spec fn hex(self) -> Seq<char> {
        hex_text(self@)
    }

    /// Constructs a hash from its bytes.
    pub fn from_bytes(b: [u8; 32]) -> (r: BlakeHash)
        ensures
            r@ == b@,
    {
        BlakeHash(b)
    }

    /// Writes the hash as 64 lowercase hexadecimal digits.
    pub fn to_hex(&self) -> (r: String)
        ensures
            r@ == self.hex(),
            parse_hash(r@) == Ok::<Seq<u8>, Seq<char>>(self@),
    {
        let mut out = String::new();
        let mut i: usize = 0;
        while i < 32
            invariant
                i <= 32,
                self@.len() == 32,
                out@ == self.hex().take(2 * i),
            decreases 32 - i,
        {
            let byte: u8 = self.0[i];
            out.push(nibble_to_hex(byte / 16));
            out.push(nibble_to_hex(byte % 16));
            proof {
                assert((2 * i) / 2 == i && (2 * i + 1) / 2 == i && (2 * i) % 2 == 0 && (2 * i + 1)
                    % 2 == 1);
                assert(out@ =~= self.hex().take(2 * i + 2));
            }
            i += 1;
        }
        proof {
            assert(self.hex().take(64) =~= self.hex());
            law_hash_text_round_trip(*self);
        }
        out
    }

    /// Reads a hash from 64 lowercase hexadecimal digits; uppercase is refused,
    /// so that every hash has one text only.
    pub fn parse_hex(s: &str) -> (r: Result<BlakeHash, CoreError>)
        ensures
            match parse_hash(s@) {
                Ok(bytes) => r matches Ok(h) && h@ == bytes && h.hex() == s@,
                Err(message) => r matches Err(e) && e.is_invalid_hash(message),
            },
    {
        let bytes = s.as_bytes();
        let len: usize = bytes.len();
        if len != 64 {
            let digits = u64_text(len as u64);
            return Err(CoreError::InvalidHash(cat("expected 64 chars, got ", digits.as_str())));
        }
        let mut out: [u8; 32] = [0u8; 32];
        let mut i: usize = 0;
        while i < 32
            invariant
                i <= 32,
                bytes@ == encode_utf8(s@),
                bytes@.len() == 64,
                forall|k: int| 0 <= k < 2 * i ==> hex_byte(#[trigger] bytes@[k]) is Some,
                forall|k: int| 0 <= k < i ==> out@[k] == #[trigger] bytes_of_hex(bytes@)[k],
            decreases 32 - i,
        {
            let hi = match parse_nibble(bytes[i * 2]) {
                Some(v) => v,
                None => {
                    proof {
                        lemma_first_non_hex(bytes@, 0, 2 * i);
                    }
                    let at = u64_text((i * 2) as u64);
                    return Err(CoreError::InvalidHash(cat("invalid char at ", at.as_str())));
                },
            };
            let lo = match parse_nibble(bytes[i * 2 + 1]) {
                Some(v) => v,
                None => {
                    proof {
                        lemma_first_non_hex(bytes@, 0, 2 * i + 1);
                    }
                    let at = u64_text((i * 2 + 1) as u64);
                    return Err(CoreError::InvalidHash(cat("invalid char at ", at.as_str())));
                },
            };
            out[i] = hi * 16 + lo;
            i += 1;
        }
        proof {
            lemma_first_non_hex(bytes@, 0, 64);
            assert(out@ =~= bytes_of_hex(bytes@));
            law_hash_text_is_canonical(s@, BlakeHash(out));
        }
        Ok(BlakeHash(out))
    }

    /// The bytes of the hash.
    pub fn as_bytes(&self) -> (r: &[u8; 32])
        ensures
            r@ == self@,
    {
        &self.0
    }
}

fn nibble_to_hex(n: u8) -> (c: char)
    requires
        n < 16,
    ensures
        c == hex_char(n as int),
{
    if n < 10 {
        (0x30 + n) as char
    } else {
        (0x61 + (n - 10)) as char
    }
}

fn parse_nibble(b: u8) -> (r: Option<u8>)
    ensures
        r == hex_byte(b),
        r matches Some(v) ==> v < 16,
{
    if 0x30 <= b && b <= 0x39 {
        Some(b - 0x30)
    } else if 0x61 <= b && b <= 0x66 {
        Some(b - 0x61 + 10)
    } else {
        None
    }
}

/// File size in bytes.
#[derive(Clone, Copy, Debug, PartialEq, Eq, Hash, Structural)]
pub struct FileSize(pub u64);

/// Path relative to a volume root: forward slashes, no leading slash.
///
/// Two spellings of a name that differ in Unicode normalization are different
/// paths.
#[derive(Clone, Debug, PartialEq, Eq, Hash)]
pub struct MediaPath(String);

/// A text with every backslash turned into a slash.
pub open spec fn slashed(s: Seq<char>) -> Seq<char> {
    s.map_values(
        |c: char|
            if c == '\\' {
                '/'
            } else {
                c
            },
    )
}

/// A text without its leading slashes.
pub open spec fn strip_slashes(s: Seq<char>) -> Seq<char>
    decreases s.len(),
{
    if s.len() > 0 && s[0] == '/' {
        strip_slashes(s.drop_first())
    } else {
        s
    }
}

/// The normal form of a path.
pub open spec fn path_form(raw: Seq<char>) -> Seq<char> {
    strip_slashes(slashed(raw))
}

proof fn lemma_strip_push(s: Seq<char>, c: char)
    ensures
        strip_slashes(s.push(c)) == if strip_slashes(s).len() == 0 && c == '/' {
            Seq::<char>::empty()
        } else {
            strip_slashes(s).push(c)
        },
    decreases s.len(),
{
    if s.len() == 0 {
        assert(s.push(c).drop_first() =~= Seq::<char>::empty());
        assert(s.push(c) =~= seq![c]);
        reveal_with_fuel(strip_slashes, 2);
    } else if s[0] == '/' {
        assert(s.push(c).drop_first() =~= s.drop_first().push(c));
        lemma_strip_push(s.drop_first(), c);
    }
}

proof fn lemma_strip_parts(s: Seq<char>)
    ensures
        strip_slashes(s).len() <= s.len(),
        strip_slashes(s).len() > 0 ==> strip_slashes(s)[0] != '/',
        forall|c: char| strip_slashes(s).contains(c) ==> s.contains(c),
        strip_slashes(strip_slashes(s)) == strip_slashes(s),
    decreases s.len(),
{
    if s.len() > 0 && s[0] == '/' {
        lemma_strip_parts(s.drop_first());
        assert forall|c: char| strip_slashes(s).contains(c) implies s.contains(c) by {
            assert(s.drop_first().contains(c));
            let k = choose|k: int| 0 <= k < s.drop_first().len() && s.drop_first()[k] == c;
            assert(s[k + 1] == c);
        }
    }
}

/// Normalizing a path a second time changes nothing.
pub proof fn law_path_form_idempotent(raw: Seq<char>)
    ensures
        path_form(path_form(raw)) == path_form(raw),
{
    law_path_form_is_relative(raw);
    let p = path_form(raw);
    assert(slashed(p) =~= p) by {
        assert forall|i: int| 0 <= i < p.len() implies slashed(p)[i] == p[i] by {
            assert(p.contains(p[i]));
        }
    }
    lemma_strip_parts(slashed(raw));
}

/// The normal form is the path but for its leading slashes and backslashes, which go,
/// and for the other backslashes, which become slashes: no other character changes.
pub proof fn law_path_form_keeps_the_rest(raw: Seq<char>, i: int)
    requires
        0 <= i < raw.len(),
    ensures
        ({
            let gone = raw.len() - path_form(raw).len();
            &&& 0 <= gone
            &&& if i < gone {
                raw[i] == '/' || raw[i] == '\\'
            } else {
                path_form(raw)[i - gone] == if raw[i] == '\\' {
                    '/'
                } else {
                    raw[i]
                }
            }
        }),
{
    lemma_strip_is_a_suffix(slashed(raw), i);
}

proof fn lemma_strip_is_a_suffix(s: Seq<char>, i: int)
    requires
        0 <= i < s.len(),
    ensures
        ({
            let gone = s.len() - strip_slashes(s).len();
            &&& 0 <= gone
            &&& if i < gone {
                s[i] == '/'
            } else {
                strip_slashes(s)[i - gone] == s[i]
            }
        }),
    decreases s.len(),
{
    if s[0] == '/' {
        if i > 0 {
            lemma_strip_is_a_suffix(s.drop_first(), i - 1);
        } else {
            lemma_strip_parts(s.drop_first());
        }
    }
}

/// The normal form has no backslash and no leading slash.
pub proof fn law_path_form_is_relative(raw: Seq<char>)
    ensures
        !path_form(raw).contains('\\'),
        path_form(raw).len() > 0 ==> path_form(raw)[0] != '/',
{
    lemma_strip_parts(slashed(raw));
    assert(!slashed(raw).contains('\\'));
}

impl View for MediaPath {
    type V = Seq<char>;

    closed spec fn view(&self) -> Seq<char> {
        self.0@
    }
}

impl MediaPath {
    /// Whether the path is in normal form, as every path that is constructed is.
    pub open spec fn valid(self) -> bool {
        path_form(self@) == self@
    }

    /// Constructs a path in normal form: backslashes become slashes, and leading
    /// slashes go. No Unicode normalization takes place.
    pub fn new(raw: &str) -> (r: MediaPath)
        ensures
            r@ == path_form(raw@),
            r.valid(),
    {
        let mut out = String::new();
        proof {
            assert(slashed(raw@.take(0)) =~= Seq::<char>::empty());
        }
        for c in it: raw.chars()
            invariant
                it.seq() == raw@,
                out@ == path_form(raw@.take(it.index() as int)),
        {
            let d = if c == '\\' {
                '/'
            } else {
                c
            };
            proof {
                let k = it.index() as int;
                assert(raw@.take(k + 1) =~= raw@.take(k).push(c));
                assert(slashed(raw@.take(k + 1)) =~= slashed(raw@.take(k)).push(d));
                lemma_strip_push(slashed(raw@.take(k)), d);
            }
            if !(d == '/' && out.as_str().is_empty()) {
                out.push(d);
            }
        }
        proof {
            assert(raw@.take(raw@.len() as int) =~= raw@);
            law_path_form_idempotent(raw@);
        }
        MediaPath(out)
    }

    /// The path as text.
    pub fn as_str(&self) -> (r: &str)
        ensures
            r@ == self@,
    {
        self.0.as_str()
    }

    /// A copy of this path.
    pub fn copy(&self) -> (r: MediaPath)
        ensures
            r == *self,
    {
        MediaPath(self.0.clone())
    }
}

/// Volume identifier.
#[derive(Clone, Copy, Debug, PartialEq, Eq, Hash, Structural)]
pub struct VolumeId(pub Uuid);

/// Device identifier.
#[derive(Clone, Copy, Debug, PartialEq, Eq, Hash, Structural)]
pub struct DeviceId(pub Uuid);

/// Identifier of a file, kept for as long as the file is known.
#[derive(Clone, Copy, Debug, PartialEq, Eq, Hash, Structural)]
pub struct FileUuid(pub Uuid);

impl VolumeId {
    /// Generates a new volume id.
    pub fn new() -> (r: VolumeId)
        ensures
            r.0.is_v7(),
    {
        VolumeId(new_id())
    }
}

impl Default for VolumeId {
    fn default() -> (r: VolumeId)
        ensures
            r.0.is_v7(),
    {
        VolumeId::new()
    }
}

impl DeviceId {
    /// Generates a new device id.
    pub fn new() -> (r: DeviceId)
        ensures
            r.0.is_v7(),
    {
        DeviceId(new_id())
    }
}

impl Default for DeviceId {
    fn default() -> (r: DeviceId)
        ensures
            r.0.is_v7(),
    {
        DeviceId::new()
    }
}

impl FileUuid {
    /// Generates an identifier for a new file.
    pub fn new() -> (r: FileUuid)
        ensures
            r.0.is_v7(),
    {
        FileUuid(new_id())
    }
}

impl Default for FileUuid {
    fn default() -> (r: FileUuid)
        ensures
            r.0.is_v7(),
    {
        FileUuid::new()
    }
}

/// A file as a scan finds it.
#[derive(Clone, Debug)]
pub struct DiscoveredFile {
    /// Absolute path as observed during the walk.
    pub absolute_path: PathText,
    /// Path relative to the volume root.
    pub relative_path: MediaPath,
    /// File size in bytes at walk time.
    pub size: FileSize,
}

/// A file with its content hash.
#[derive(Clone, Debug)]
pub struct HashedFile {
    pub discovered: DiscoveredFile,
    pub hash: BlakeHash,
}

/// Status of a file location.
#[derive(Clone, Copy, Debug, PartialEq, Eq, Hash, Structural)]
pub enum LocationStatus {
    /// Visible on the expected volume at the expected path.
    Active,
    /// Not found on the last verification.
    Missing,
    /// Moved elsewhere on the same volume.
    Moved,
    /// Modified in place; the hash is outdated.
    Stale,
}

/// Outcome of an upsert.
#[derive(Clone, Copy, Debug, PartialEq, Eq, Structural)]
pub enum UpsertOutcome {
    /// The row did not exist and was inserted.
    Inserted,
    /// The row existed and was updated.
    Updated,
    /// The row existed and matched; no write performed.
    Unchanged,
}

/// A known location of a file.
#[derive(Clone, Debug)]
pub struct FileLocationRecord {
    pub file_uuid: FileUuid,
    /// Content hash; `None` until the full hash is computed.
    pub hash: Option<BlakeHash>,
    pub size: FileSize,
    pub volume_id: VolumeId,
    pub relative_path: MediaPath,
    pub status: LocationStatus,
    /// ISO 8601 UTC timestamp of the first sighting.
    pub first_seen: String,
}

/// What was observed of a volume when it was detected.
#[derive(Clone, Debug)]
pub struct VolumeIdentifiers {
    pub gpt_partition_guid: Option<String>,
    pub fs_uuid: Option<String>,
    pub label: Option<String>,
    pub capacity_bytes: u64,
    pub is_removable: bool,
}

/// A known volume with its mounts on one machine.
#[derive(Clone, Debug)]
pub struct VolumeRecord {
    pub id: VolumeId,
    pub label: Option<String>,
    pub capacity_bytes: u64,
    pub is_removable: bool,
    /// Current mount paths on this machine.
    pub mounts_on_this_machine: Vec<String>,
    /// ISO 8601 UTC timestamp of the last sighting.
    pub last_seen: String,
}

/// A path of the file system: its text, or, where it is not valid UTF-8, its bytes
/// as the platform encodes them and how it is shown.
#[derive(Clone, Debug, PartialEq, Eq)]
pub enum PathText {
    Utf8(String),
    NotUtf8 { bytes: Vec<u8>, shown: String },
}

/// A path below a mount point: the mount point, and what follows it.
#[derive(Clone, Debug, PartialEq, Eq)]
pub struct MountedPath {
    pub mount: String,
    pub relative: String,
}

} // verus!
