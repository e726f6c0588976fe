//! Domain types: hashes, paths, the clock, tags, errors and ids.
use std::time::{SystemTime, UNIX_EPOCH};

use perima::errors::{BackupFailureReason, CoreError, FullHashUnavailableReason};
use perima::hlc::{clock_ms, Hlc, HLC_MAX_COUNTER, HLC_MAX_MS};
use perima::ids::{new_id, Uuid};
use perima::tag::{finish_normalize, normalize, trim, MAX_TAG_LEN};
use perima::transcription::{BackendId, TranscriptionError};
use perima::types::{BlakeHash, DeviceId, FileSize, FileUuid, MediaPath, VolumeId};
use perima::{AppEvent, BatchId, EventBus, InvalidationReason, NoopBus};

// --- the clock ---

#[test]
fn wall_clock_is_read_in_range() {
    assert_eq!(clock_ms(None), 0);
    assert_eq!(clock_ms(Some(1_700_000_000_000)), 1_700_000_000_000);
    assert_eq!(clock_ms(Some(u128::from(HLC_MAX_MS))), HLC_MAX_MS);
    assert_eq!(clock_ms(Some(u128::from(HLC_MAX_MS) + 1)), HLC_MAX_MS);
    assert_eq!(clock_ms(Some(u128::from(u64::MAX) + 8)), 7);
}

#[test]
fn pack_unpack_round_trip_across_ranges() {
    for (ms, counter) in [
        (0u64, 0u16),
        (1_700_000_000_000u64, 0u16),
        (1_700_000_000_000u64, 42u16),
        (HLC_MAX_MS, HLC_MAX_COUNTER),
        (HLC_MAX_MS - 1, 0u16),
        (0u64, HLC_MAX_COUNTER),
    ] {
        let h = Hlc { ms, counter };
        assert_eq!(Hlc::unpack(h.pack()), h, "round-trip failed for ({ms}, {counter})");
        assert!(h.pack() >= 0, "pack produced negative i64 for ({ms}, {counter})");
    }
}

#[test]
fn packed_ord_matches_derived_ord() {
    let cases = [
        (Hlc { ms: 100, counter: 0 }, Hlc { ms: 50, counter: 1 }),
        (Hlc { ms: 0, counter: 1 }, Hlc { ms: 0, counter: 0 }),
        (Hlc { ms: 1, counter: 0 }, Hlc { ms: 0, counter: HLC_MAX_COUNTER }),
        (Hlc { ms: HLC_MAX_MS, counter: 0 }, Hlc { ms: HLC_MAX_MS - 1, counter: HLC_MAX_COUNTER }),
        (Hlc { ms: 42, counter: 42 }, Hlc { ms: 42, counter: 42 }),
    ];
    for (a, b) in cases {
        assert_eq!(
            a.cmp(&b),
            a.pack().cmp(&b.pack()),
            "packed Ord mismatches derived Ord for {a:?} vs {b:?} (packed {} vs {})",
            a.pack(),
            b.pack()
        );
    }
}

#[test]
fn now_is_monotonically_non_decreasing_under_rapid_calls() {
    let mut state = Hlc { ms: 0, counter: 0 };
    let mut last = Hlc::now(&mut state);
    for _ in 0..10_000 {
        let curr = Hlc::now(&mut state);
        assert!(curr >= last, "HLC regressed: {curr:?} < {last:?}");
        last = curr;
    }
}

fn wall_ms() -> u64 {
    SystemTime::now().duration_since(UNIX_EPOCH).map_or(0, |d| d.as_millis() as u64)
}

#[test]
fn clock_backward_safety_via_state_reuse() {
    let mut state = Hlc { ms: 1_900_000_000_000, counter: 0 };
    let prior = state;
    let h = Hlc::now(&mut state);
    assert!(h >= prior, "HLC regressed below forced-future state");
}

#[test]
fn counter_tiebreak_within_same_ms() {
    let mut state = Hlc { ms: wall_ms(), counter: 0 };
    let a = Hlc::now(&mut state);
    let b = Hlc::now(&mut state);
    let c = Hlc::now(&mut state);
    assert!(a <= b && b <= c, "non-monotonic within-ms: {a:?} {b:?} {c:?}");
}

#[test]
fn counter_overflow_within_same_ms_advances_ms() {
    let start_ms = wall_ms();
    let mut state = Hlc { ms: start_ms, counter: HLC_MAX_COUNTER };
    let h = Hlc::now(&mut state);
    assert!(
        h.ms > start_ms || (h.ms == start_ms && h.counter == 0),
        "overflow did not advance ms or reset counter: start_ms={start_ms} got={h:?}"
    );
}

#[test]
fn now_reads_the_wall_clock() {
    let before = wall_ms();
    let mut state = Hlc { ms: 0, counter: 0 };
    let h = Hlc::now(&mut state);
    assert!(h.ms >= before && h.ms <= wall_ms(), "{h:?} is not the time");
    assert_eq!(state, h);
}

#[test]
fn tick_follows_the_wall_clock_or_the_counter() {
    let last = Hlc { ms: 10, counter: 7 };
    assert_eq!(last.tick(11), Hlc { ms: 11, counter: 0 });
    assert_eq!(last.tick(10), Hlc { ms: 10, counter: 8 });
    assert_eq!(last.tick(0), Hlc { ms: 10, counter: 8 });
    let full = Hlc { ms: 10, counter: HLC_MAX_COUNTER };
    assert_eq!(full.tick(10), Hlc { ms: 11, counter: 0 });
    let end = Hlc { ms: HLC_MAX_MS, counter: HLC_MAX_COUNTER };
    assert_eq!(end.tick(u64::MAX), Hlc { ms: HLC_MAX_MS, counter: 0 });
}

#[test]
fn pack_has_the_documented_layout() {
    assert_eq!(Hlc { ms: 1, counter: 2 }.pack(), 65_538);
    assert_eq!(Hlc { ms: HLC_MAX_MS, counter: HLC_MAX_COUNTER }.pack(), i64::MAX);
    assert_eq!(Hlc { ms: HLC_MAX_MS + 2, counter: 0 }.pack(), 65_536);
    assert_eq!(Hlc::unpack(-1), Hlc { ms: HLC_MAX_MS, counter: HLC_MAX_COUNTER });
}

// --- tags ---

#[test]
fn normalize_lowercases_and_nfc() {
    assert_eq!(normalize("Vacation").unwrap(), "vacation");
    let decomposed = "cafe\u{0301}";
    assert_eq!(normalize(decomposed).unwrap(), "caf\u{00e9}");
}

#[test]
fn normalize_trims() {
    assert_eq!(normalize("  tag  ").unwrap(), "tag");
}

#[test]
fn normalize_rejects_empty() {
    assert!(matches!(normalize(""), Err(CoreError::InvalidTag(_))));
    assert!(matches!(normalize("   "), Err(CoreError::InvalidTag(_))));
}

#[test]
fn normalize_rejects_too_long() {
    let too_long = "x".repeat(MAX_TAG_LEN + 1);
    assert!(matches!(normalize(&too_long), Err(CoreError::InvalidTag(_))));
}

#[test]
fn ascii_names_have_a_stable_normal_form() {
    let name = normalize("\t Summer-2024 Trip ").expect("normalize");
    assert_eq!(name, "summer-2024 trip");
    assert_eq!(normalize(&name), Ok(name.clone()));
    assert_eq!(normalize("sUMMER-2024 tRIP"), Ok(name.clone()));
    assert_eq!(normalize("\r\n \x0bSUMMER-2024 TRIP\x0c"), Ok(name));
}

#[test]
fn white_space_of_every_kind_is_trimmed() {
    let kinds = [
        '\u{9}', '\u{a}', '\u{b}', '\u{c}', '\u{d}', '\u{20}', '\u{85}', '\u{a0}', '\u{1680}',
        '\u{2000}', '\u{2001}', '\u{2002}', '\u{2003}', '\u{2004}', '\u{2005}', '\u{2006}',
        '\u{2007}', '\u{2008}', '\u{2009}', '\u{200a}', '\u{2028}', '\u{2029}', '\u{202f}',
        '\u{205f}', '\u{3000}',
    ];
    for code in 0..=0x10ffffu32 {
        let Some(c) = char::from_u32(code) else { continue };
        assert_eq!(perima::tag::trim(&format!("{c}")).is_empty(), kinds.contains(&c), "{code:x}");
    }
    // What only looks empty is no white space.
    for c in ['\u{8}', '\u{e}', '\u{180e}', '\u{200b}', '\u{2060}', '\u{feff}'] {
        assert_eq!(normalize(&format!("{c}x")), Ok(format!("{c}x")));
    }
}

#[test]
fn normalize_messages_and_limits() {
    assert_eq!(
        normalize(" \t\u{2003}").unwrap_err(),
        CoreError::InvalidTag("tag name is empty".to_string())
    );
    let exact = "y".repeat(MAX_TAG_LEN);
    assert_eq!(normalize(&exact).unwrap(), exact);
    let raw = format!("\"{}", "z".repeat(64));
    assert_eq!(
        normalize(&raw).unwrap_err(),
        CoreError::InvalidTag(format!("tag exceeds 64 chars: {raw:?}"))
    );
    // One character that is three in lowercase form counts as it comes out.
    assert_eq!(normalize("\u{0130}").unwrap(), "i\u{0307}");
}

#[test]
fn finish_normalize_takes_a_composed_text() {
    assert_eq!(finish_normalize("raw", "CAF\u{00c9}").unwrap(), "caf\u{00e9}");
    assert_eq!(finish_normalize("raw", "").unwrap(), "");
    assert_eq!(
        finish_normalize("raw", &"A".repeat(65)).unwrap_err(),
        CoreError::InvalidTag("tag exceeds 64 chars: \"raw\"".to_string())
    );
}

#[test]
fn trim_twice_is_trim_once() {
    for raw in ["", " ", "a", " a b ", "\u{00a0}x\u{3000}"] {
        let once = trim(raw);
        assert_eq!(once, raw.trim());
        assert_eq!(trim(&once), once);
    }
}

// --- ids ---

#[test]
fn volume_id_new_is_unique() {
    let a = VolumeId::new();
    let b = VolumeId::new();
    assert_ne!(a.0, b.0);
}

#[test]
fn ids_are_version_seven() {
    for id in [
        new_id(),
        VolumeId::default().0,
        DeviceId::default().0,
        FileUuid::default().0,
        BatchId::default().0,
    ] {
        assert_eq!((id.0 >> 76) & 0xf, 7);
        assert_eq!((id.0 >> 62) & 3, 2);
        assert_ne!(id, Uuid::nil());
    }
}

#[test]
fn uuid_texts() {
    let u = Uuid(0x0123_4567_89ab_cdef_0011_2233_4455_6677);
    assert_eq!(u.to_hyphenated(), "01234567-89ab-cdef-0011-223344556677");
    assert_eq!(u.to_simple(), "0123456789abcdef0011223344556677");
    assert_eq!(Uuid::parse_str(&u.to_hyphenated()), Ok(u));
    assert_eq!(Uuid::parse_str("{01234567-89AB-CDEF-0011-223344556677}"), Ok(u));
    assert_eq!(
        Uuid::nil().to_hyphenated(),
        "00000000-0000-0000-0000-000000000000"
    );
    let text = Uuid::parse_str("nonsense").unwrap_err();
    assert_eq!(text, uuid::Uuid::parse_str("nonsense").unwrap_err().to_string());
}

// --- hashes ---

#[test]
fn blake_hash_round_trip() {
    let bytes = [0x42u8; 32];
    let h = BlakeHash::from_bytes(bytes);
    let s = h.to_hex();
    assert_eq!(s.len(), 64);
    assert!(s.chars().all(|c| c.is_ascii_hexdigit() && !c.is_ascii_uppercase()));
    let parsed = BlakeHash::parse_hex(&s).expect("parse_hex round-trip");
    assert_eq!(parsed, h);
    assert_eq!(parsed.as_bytes(), &bytes);
}

#[test]
fn blake_hash_rejects_wrong_length() {
    assert!(BlakeHash::parse_hex("abc").is_err());
    assert!(BlakeHash::parse_hex(&"a".repeat(63)).is_err());
    assert!(BlakeHash::parse_hex(&"a".repeat(65)).is_err());
}

#[test]
fn blake_hash_rejects_non_hex() {
    let bad: String = "Z".repeat(64);
    assert!(BlakeHash::parse_hex(&bad).is_err());
}

#[test]
fn blake_hash_rejects_uppercase() {
    let upper: String = "A".repeat(64);
    assert!(BlakeHash::parse_hex(&upper).is_err());
}

#[test]
fn blake_hash_messages() {
    assert_eq!(
        BlakeHash::parse_hex("abc").unwrap_err(),
        CoreError::InvalidHash("expected 64 chars, got 3".to_string())
    );
    // The length is counted in bytes.
    assert_eq!(
        BlakeHash::parse_hex(&"\u{00e9}".repeat(33)).unwrap_err(),
        CoreError::InvalidHash("expected 64 chars, got 66".to_string())
    );
    let mut s = "a".repeat(64);
    s.replace_range(17..18, "g");
    s.replace_range(40..41, "G");
    assert_eq!(
        BlakeHash::parse_hex(&s).unwrap_err(),
        CoreError::InvalidHash("invalid char at 17".to_string())
    );
}

#[test]
fn blake_hash_hex_is_exact() {
    let mut bytes = [0u8; 32];
    bytes[0] = 0x0f;
    bytes[1] = 0xa0;
    bytes[31] = 0xff;
    let text = BlakeHash::from_bytes(bytes).to_hex();
    assert_eq!(&text[..6], "0fa000");
    assert_eq!(&text[60..], "00ff");
}

#[test]
fn file_size_is_copy() {
    let a = FileSize(1024);
    let b = a;
    assert_eq!(a.0, b.0);
}

// --- paths ---

#[test]
fn media_path_strips_leading_slash() {
    assert_eq!(MediaPath::new("/photos/a.jpg").as_str(), "photos/a.jpg");
    assert_eq!(MediaPath::new("///photos/a.jpg").as_str(), "photos/a.jpg");
}

#[test]
fn media_path_forward_slashes() {
    assert_eq!(MediaPath::new("photos\\2024\\a.jpg").as_str(), "photos/2024/a.jpg");
}

#[test]
fn media_path_no_longer_nfc_collapses() {
    let precomposed = "caf\u{00E9}";
    let decomposed = "cafe\u{0301}";
    assert_ne!(MediaPath::new(precomposed), MediaPath::new(decomposed));
    assert_eq!(MediaPath::new(precomposed), MediaPath::new(precomposed));
}

#[test]
fn media_path_idempotent_fixed_cases() {
    for s in &["photos/a.jpg", "a", "", "caf\u{0301}", "a/b/c"] {
        let once = MediaPath::new(s);
        let twice = MediaPath::new(once.as_str());
        assert_eq!(once, twice);
    }
}

#[test]
fn media_path_byte_identity_off_macos() {
    let s = "caf\u{00E9}/file.txt";
    assert_eq!(MediaPath::new(s), MediaPath::new(s));
    assert_eq!(MediaPath::new(s).as_str(), "caf\u{00E9}/file.txt");
}

#[test]
fn media_path_mixed_slashes() {
    assert_eq!(MediaPath::new("\\/\\a\\\\b/").as_str(), "a//b/");
    assert_eq!(MediaPath::new("///").as_str(), "");
}

// --- errors and events ---

#[test]
fn backend_id_display_round_trips() {
    let id = BackendId("groq:whisper-large-v3-turbo".to_owned());
    assert_eq!(id.to_text(), "groq:whisper-large-v3-turbo");
    assert_eq!(&id.0, "groq:whisper-large-v3-turbo");
}

#[test]
fn core_error_implements_clone() {
    let err = CoreError::Io { kind: "NotFound".to_string(), message: "gone".to_string() };
    assert_eq!(err.clone(), err);
}

#[test]
fn core_error_messages() {
    let s = || "x".to_string();
    for (error, text) in [
        (CoreError::NotFound(s()), "not found: x"),
        (CoreError::Duplicate(s()), "duplicate: x"),
        (CoreError::InvalidPath(s()), "invalid path: x"),
        (CoreError::InvalidHash(s()), "invalid hash hex: x"),
        (CoreError::InvalidTag(s()), "invalid tag: x"),
        (CoreError::Io { kind: "NotFound".to_string(), message: s() }, "io [NotFound]: x"),
        (CoreError::Unsupported(s()), "unsupported in this phase: x"),
        (CoreError::Internal(s()), "internal: x"),
        (
            CoreError::FullHashUnavailable {
                reason: FullHashUnavailableReason::NotMounted { volume_id: "v\"1".to_string() },
            },
            "full hash unavailable: NotMounted { volume_id: \"v\\\"1\" }",
        ),
        (
            CoreError::FullHashUnavailable { reason: FullHashUnavailableReason::NotComputed },
            "full hash unavailable: NotComputed",
        ),
        (
            CoreError::FullHashUnavailable {
                reason: FullHashUnavailableReason::IoError { message: s() },
            },
            "full hash unavailable: IoError { message: \"x\" }",
        ),
        (
            CoreError::BackupFailed { reason: BackupFailureReason::DiskFull { path: s() } },
            "backup failed: disk full: x",
        ),
        (
            CoreError::BackupFailed { reason: BackupFailureReason::TargetExists { path: s() } },
            "backup failed: target exists: x",
        ),
        (
            CoreError::BackupFailed {
                reason: BackupFailureReason::TargetUnwritable { path: s(), message: s() },
            },
            "backup failed: target not writable: x: x",
        ),
        (
            CoreError::BackupFailed { reason: BackupFailureReason::AlreadyInProgress },
            "backup failed: already in progress",
        ),
        (
            CoreError::BackupFailed { reason: BackupFailureReason::Internal(s()) },
            "backup failed: x",
        ),
        (
            CoreError::Transcription(TranscriptionError::Cancelled),
            "transcription failed: cancelled by caller",
        ),
    ] {
        assert_eq!(error.message(), text);
    }
    assert_eq!(
        FullHashUnavailableReason::NotMounted { volume_id: s() }.message(),
        "volume not mounted: x"
    );
    assert_eq!(
        FullHashUnavailableReason::NotComputed.message(),
        "full hash has not been computed for this file yet"
    );
    assert_eq!(
        FullHashUnavailableReason::IoError { message: s() }.message(),
        "io error: x"
    );
}

#[test]
fn io_errors_keep_kind_and_message() {
    let e = std::io::Error::new(std::io::ErrorKind::PermissionDenied, "denied here");
    assert_eq!(
        CoreError::from(e),
        CoreError::Io { kind: "PermissionDenied".to_string(), message: "denied here".to_string() }
    );
}

#[test]
fn transcription_error_messages() {
    let s = || "x".to_string();
    for (error, text) in [
        (TranscriptionError::Network(s()), "network error contacting backend: x"),
        (
            TranscriptionError::Auth,
            "authentication failed (bad API key, expired token, or wrong scopes)",
        ),
        (
            TranscriptionError::RateLimited { retry_after_secs: Some(30) },
            "rate limited by backend; retry after Some(30)s",
        ),
        (
            TranscriptionError::RateLimited { retry_after_secs: None },
            "rate limited by backend; retry after Nones",
        ),
        (TranscriptionError::QuotaExceeded, "quota or billing exhausted"),
        (
            TranscriptionError::ModelNotFound { backend: "b".to_string(), model: "m".to_string() },
            "model m not available at backend b",
        ),
        (TranscriptionError::AudioDecode(s()), "could not decode audio from source: x"),
        (
            TranscriptionError::FileTooLarge { limit_bytes: 26_214_400 },
            "input file too large for backend (limit 26214400 bytes)",
        ),
        (TranscriptionError::Cancelled, "cancelled by caller"),
        (TranscriptionError::BackendUnavailable { reason: s() }, "backend unavailable: x"),
        (
            TranscriptionError::QueueFull { queued: 7 },
            "transcription queue is full (7 jobs queued); try again later",
        ),
        (TranscriptionError::Internal(s()), "internal adapter error: x"),
    ] {
        assert_eq!(error.message(), text);
    }
}

#[test]
fn noop_bus_takes_everything() {
    let event = AppEvent::IndexInvalidated { reason: InvalidationReason::TagsChanged };
    assert!(NoopBus.emit(&event).is_ok());
}

#[test]
fn core_keeps_its_name() {
    assert_eq!(perima::CRATE_NAME, "perima-core");
}
