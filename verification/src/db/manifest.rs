//! The manifest that each volume carries: which files it holds.
use vstd::prelude::*;
use vstd::string::*;

use crate::db::shape::{assign, put, Assign, Form, Shape, Term, Verb};
use crate::db::sql::{text_value, uuid_value, Bound, SqlCall, SqlValue};
use crate::db::writer::file::hash_value;
use crate::types::{BlakeHash, HashedFile, MediaPath, VolumeId};

verus! {

pub const MANIFEST_TABLES: &'static str = "CREATE TABLE IF NOT EXISTS manifest_meta (
    key   TEXT PRIMARY KEY,
    value TEXT NOT NULL
 );
 CREATE TABLE IF NOT EXISTS manifest_files (
    blake3_hash   TEXT PRIMARY KEY,
    file_size     INTEGER NOT NULL,
    relative_path TEXT NOT NULL,
    first_seen    TEXT NOT NULL,
    updated_at    TEXT NOT NULL
 );";

/// A statement that writes the manifest.
#[derive(Clone, Debug)]
pub enum ManifestStatement {
    Volume { volume: VolumeId },
    Version,
    Time { now: String },
    File { hash: BlakeHash, size: i64, path: MediaPath, now: String },
}

impl ManifestStatement {
    /// The parts of the statement.
    pub open spec fn form(self) -> Form {
        match self {
            ManifestStatement::Volume { .. } => Form {
                verb: Verb::Replace,
                table: "manifest_meta"@,
                columns: seq![
                    Assign { column: "key", term: Term::Word("volume_id") },
                    put("value", 1),
                ],
                tests: seq![],
            },
            ManifestStatement::Version => Form {
                verb: Verb::Replace,
                table: "manifest_meta"@,
                columns: seq![
                    Assign { column: "key", term: Term::Word("manifest_version") },
                    Assign { column: "value", term: Term::Word("1") },
                ],
                tests: seq![],
            },
            ManifestStatement::Time { .. } => Form {
                verb: Verb::Replace,
                table: "manifest_meta"@,
                columns: seq![
                    Assign { column: "key", term: Term::Word("created_at") },
                    put("value", 1),
                ],
                tests: seq![],
            },
            ManifestStatement::File { .. } => Form {
                verb: Verb::Replace,
                table: "manifest_files"@,
                columns: seq![
                    put("blake3_hash", 1),
                    put("file_size", 2),
                    put("relative_path", 3),
                    put("first_seen", 4),
                    put("updated_at", 4),
                ],
                tests: seq![],
            },
        }
    }

    /// The parts of the statement.
    pub fn shape(&self) -> (r: Shape)
        ensures
            r@ == self.form(),
    {
        let r = match self {
            ManifestStatement::Volume { .. } => Shape {
                verb: Verb::Replace,
                table: "manifest_meta",
                columns: vec![
                    Assign { column: "key", term: Term::Word("volume_id") },
                    assign("value", 1),
                ],
                tests: Vec::new(),
            },
            ManifestStatement::Version => Shape {
                verb: Verb::Replace,
                table: "manifest_meta",
                columns: vec![
                    Assign { column: "key", term: Term::Word("manifest_version") },
                    Assign { column: "value", term: Term::Word("1") },
                ],
                tests: Vec::new(),
            },
            ManifestStatement::Time { .. } => Shape {
                verb: Verb::Replace,
                table: "manifest_meta",
                columns: vec![
                    Assign { column: "key", term: Term::Word("created_at") },
                    assign("value", 1),
                ],
                tests: Vec::new(),
            },
            ManifestStatement::File { .. } => Shape {
                verb: Verb::Replace,
                table: "manifest_files",
                columns: vec![
                    assign("blake3_hash", 1),
                    assign("file_size", 2),
                    assign("relative_path", 3),
                    assign("first_seen", 4),
                    assign("updated_at", 4),
                ],
                tests: Vec::new(),
            },
        };
        assert(r.columns@ =~= self.form().columns);
        assert(r.tests@ =~= self.form().tests);
        r
    }
}

impl ManifestStatement {
    /// The text of the statement.
    pub open spec fn sql(self) -> Seq<char> {
        self.form().text()
    }

    /// The values bound to the statement.
    pub open spec fn bound(self) -> Seq<Bound> {
        match self {
            ManifestStatement::Volume { volume } => seq![Bound::Text(volume.0.text())],
            ManifestStatement::Version => seq![],
            ManifestStatement::Time { now } => seq![Bound::Text(now@)],
            ManifestStatement::File { hash, size, path, now } => seq![
                Bound::Text(hash.hex()),
                Bound::Int(size as int),
                Bound::Text(path@),
                Bound::Text(now@),
            ],
        }
    }

    /// The statement as the database takes it.
    pub fn call(&self) -> (r: SqlCall)
        ensures
            r.is(self.sql(), self.bound()),
    {
        match self {
            ManifestStatement::Volume { volume } => {
                let params: Vec<SqlValue> = vec![uuid_value(volume.0)];
                self.shape().call(params)
            },
            ManifestStatement::Version => self.shape().call(Vec::new()),
            ManifestStatement::Time { now } => {
                let params: Vec<SqlValue> = vec![text_value(now.as_str())];
                self.shape().call(params)
            },
            ManifestStatement::File { hash, size, path, now } => {
                let params: Vec<SqlValue> = vec![
                    hash_value(hash),
                    SqlValue::Int(*size),
                    text_value(path.as_str()),
                    text_value(now.as_str()),
                ];
                self.shape().call(params)
            },
        }
    }
}

/// A size in the manifest; what does not fit 63 bits is written as the largest
/// size.
pub open spec fn manifest_size(size: u64) -> i64 {
    if size <= i64::MAX {
        size as i64
    } else {
        i64::MAX
    }
}

/// The statement for a file.
pub open spec fn file_statement(file: HashedFile, now: String) -> ManifestStatement {
    ManifestStatement::File {
        hash: file.hash,
        size: manifest_size(file.discovered.size.0),
        path: file.discovered.relative_path,
        now,
    }
}

/// The statements that write a manifest: what it is about, then its files in
/// order.
pub open spec fn manifest_statements(
    volume: VolumeId,
    files: Seq<HashedFile>,
    now: String,
) -> Seq<ManifestStatement> {
    seq![
        ManifestStatement::Volume { volume },
        ManifestStatement::Version,
        ManifestStatement::Time { now },
    ] + files.map_values(|f: HashedFile| file_statement(f, now))
}

/// Plans the writing of a manifest at the time `now`.
pub fn write_manifest_inner(volume: VolumeId, files: &Vec<HashedFile>, now: &String) -> (r: Vec<
    ManifestStatement,
>)
    ensures
        r@ == manifest_statements(volume, files@, *now),
{
    let mut out: Vec<ManifestStatement> = vec![
        ManifestStatement::Volume { volume },
        ManifestStatement::Version,
        ManifestStatement::Time { now: now.clone() },
    ];
    let ghost whole = manifest_statements(volume, files@, *now);
    let mut i: usize = 0;
    while i < files.len()
        invariant
            i <= files.len(),
            whole == manifest_statements(volume, files@, *now),
            out@ =~= whole.take(3 + i),
        decreases files.len() - i,
    {
        let file = &files[i];
        let size: i64 = if file.discovered.size.0 <= 0x7fff_ffff_ffff_ffff {
            file.discovered.size.0 as i64
        } else {
            i64::MAX
        };
        out.push(
            ManifestStatement::File {
                hash: file.hash,
                size,
                path: file.discovered.relative_path.copy(),
                now: now.clone(),
            },
        );
        i += 1;
    }
    assert(whole.take(whole.len() as int) =~= whole);
    out
}

/// What the manifest says of a file.
pub struct ManifestEntry {
    pub size: int,
    pub path: Seq<char>,
    pub now: Seq<char>,
}

/// The files of a manifest, by hash, after a list of statements.
pub open spec fn manifest_files(
    before: Map<Seq<char>, ManifestEntry>,
    statements: Seq<ManifestStatement>,
) -> Map<Seq<char>, ManifestEntry>
    decreases statements.len(),
{
    if statements.len() == 0 {
        before
    } else {
        let m = manifest_files(before, statements.drop_last());
        match statements.last() {
            ManifestStatement::File { hash, size, path, now } => m.insert(
                hash.hex(),
                ManifestEntry { size: size as int, path: path@, now: now@ },
            ),
            _ => m,
        }
    }
}

/// Writing a manifest replaces what it said of the files that are written: each
/// file is as its last mention says, and files that are not mentioned stay.
pub proof fn law_manifest_holds_the_latest(
    before: Map<Seq<char>, ManifestEntry>,
    volume: VolumeId,
    files: Seq<HashedFile>,
    now: String,
    hash: Seq<char>,
    k: int,
)
    requires
        -1 <= k < files.len(),
        forall|j: int| k < j < files.len() ==> (#[trigger] files[j]).hash.hex() != hash,
        k >= 0 ==> files[k].hash.hex() == hash,
    ensures
        ({
            let m = manifest_files(before, manifest_statements(volume, files, now));
            if k >= 0 {
                m.dom().contains(hash) && m[hash] == (ManifestEntry {
                    size: manifest_size(files[k].discovered.size.0) as int,
                    path: files[k].discovered.relative_path@,
                    now: now@,
                })
            } else {
                (m.dom().contains(hash) <==> before.dom().contains(hash)) && (
                before.dom().contains(hash) ==> m[hash] == before[hash])
            }
        }),
    decreases files.len(),
{
    let statements = manifest_statements(volume, files, now);
    if files.len() == 0 {
        assert(statements =~= seq![
            ManifestStatement::Volume { volume },
            ManifestStatement::Version,
            ManifestStatement::Time { now },
        ]);
        assert(statements.drop_last().drop_last().drop_last() =~= Seq::<
            ManifestStatement,
        >::empty());
        reveal_with_fuel(manifest_files, 4);
    } else {
        let fewer = files.drop_last();
        assert(statements.drop_last() =~= manifest_statements(volume, fewer, now));
        assert(statements.last() == file_statement(files.last(), now));
        if k < files.len() - 1 {
            assert forall|j: int| k < j < fewer.len() implies (#[trigger] fewer[j]).hash.hex()
                != hash by {
                assert(files[j].hash.hex() != hash);
            }
            assert(files[files.len() - 1].hash.hex() != hash);
            law_manifest_holds_the_latest(before, volume, fewer, now, hash, k);
        }
    }
}

} // verus!
