use vstd::prelude::*;
use vstd::string::StringExecFns;

use crate::errors::MigrationError;

verus! {

/// The direction of a schema-change step. This system ships forward steps
/// only; backward steps are never applied automatically.
#[derive(Clone, Copy, PartialEq, Eq, Structural, Debug)]
pub enum MigrationKind {
    Forward,
    Backward,
}

/// One versioned, forward-only schema-change step: a positive version
/// number unique in its catalog, a free-text description for diagnostics,
/// a direction, and the schema-definition statements to execute atomically
/// as one unit.
pub struct MigrationStep {
    pub version: u64,
    pub description: String,
    pub kind: MigrationKind,
    pub statement: String,
}

/// A catalog read top to bottom is well formed when every version is
/// positive and the versions are strictly ascending (gaps permitted,
/// duplicates forbidden).
pub open spec fn catalog_well_formed(steps: Seq<MigrationStep>) -> bool {
    &&& forall|i: int| 0 <= i < steps.len() ==> #[trigger] steps[i].version >= 1
    &&& forall|i: int, j: int|
        0 <= i < j < steps.len() ==> #[trigger] steps[i].version < #[trigger] steps[j].version
}

/// Checks the catalog invariant, returning `CatalogError` on the first
/// violation: a version of zero, a duplicate version, or versions listed
/// out of ascending order.
pub fn validate(steps: &Vec<MigrationStep>) -> (r: Result<(), MigrationError>)
    ensures
        r is Ok <==> catalog_well_formed(steps@),
        r is Err ==> r == Err::<(), MigrationError>(MigrationError::CatalogError),
{
    let n = steps.len();
    let mut i: usize = 0;
    while i < n
        invariant
            i <= n == steps@.len(),
            forall|k: int| 0 <= k < i ==> #[trigger] steps@[k].version >= 1,
            forall|k: int, l: int|
                0 <= k < l < i ==> #[trigger] steps@[k].version < #[trigger] steps@[l].version,
        decreases n - i,
    {
        if steps[i].version < 1 {
            return Err(MigrationError::CatalogError);
        }
        if i > 0 && steps[i - 1].version >= steps[i].version {
            return Err(MigrationError::CatalogError);
        }
        i = i + 1;
    }
    Ok(())
}

/// The schema-definition statements of the first shipped step: the
/// application tables for books, reading progress, tags, and chapters.
pub open spec fn initial_schema_sql() -> Seq<char> {
    "
CREATE TABLE IF NOT EXISTS WBR_book (
    bookID              VARCHAR(50) PRIMARY KEY,
    foreignUrl          TEXT        NOT NULL,
    title               TEXT        NOT NULL,
    coverUrl            TEXT        NULL,
    authorName          TEXT        NULL,
    dateInserted        DATETIME    DEFAULT CURRENT_TIMESTAMP,
    dateLastChapter     DATETIME    NULL,
    dateFirstChapter    DATETIME    NULL,
    dateLastRead        DATETIME    NULL,
    countChapters       INTEGER     DEFAULT 0
);

CREATE TABLE IF NOT EXISTS WBR_bookProgress (
    bookProgressID      INTEGER         PRIMARY KEY AUTOINCREMENT,
    bookID              VARCHAR(50)     NOT NULL,
    currentChapter      INTEGER         NOT NULL,
    currentPage         INTEGER         NULL,
    currentOffset       INTEGER         NULL
);

CREATE TABLE IF NOT EXISTS WBR_bookTag (
    bookID      VARCHAR(50)     NOT NULL,
    tagName     VARCHAR(500)    NOT NULL,
    PRIMARY KEY (bookID, tagName)
);

CREATE TABLE IF NOT EXISTS WBR_chapter (
    chapterID       VARCHAR(50)                                                   PRIMARY KEY,
    bookID          VARCHAR(50)                                                   NOT NULL,
    foreignUrl      TEXT                                                          NOT NULL,
    title           TEXT                                                          NOT NULL,
    status          TEXT CHECK(status IN ('downloaded', 'pending', 'error'))      NOT NULL,
    datePublished   DATETIME                                                      NOT NULL,
    dateInserted    DATETIME                                                      DEFAULT CURRENT_TIMESTAMP,
    dateUpdated     DATETIME                                                      DEFAULT CURRENT_TIMESTAMP,
    content         TEXT                                                          NOT NULL,
    noteBefore      TEXT                                                          NULL,
    noteAfter       TEXT                                                          NULL
);

"@
}

/// The catalog shipped in this build: pure and deterministic, the same
/// sequence on every call for the lifetime of the build. A shipped step is
/// never edited or removed; new steps are appended with higher versions.
pub fn migrations() -> (steps: Vec<MigrationStep>)
    ensures
        catalog_well_formed(steps@),
        steps@.len() == 1,
        steps@[0].version == 1,
        steps@[0].kind is Forward,
        steps@[0].description@ == "create_initial_tables"@,
        steps@[0].statement@ == initial_schema_sql(),
{
    let step = MigrationStep {
        version: 1,
        description: String::from_str("create_initial_tables"),
        kind: MigrationKind::Forward,
        statement: String::from_str(
            "
CREATE TABLE IF NOT EXISTS WBR_book (
    bookID              VARCHAR(50) PRIMARY KEY,
    foreignUrl          TEXT        NOT NULL,
    title               TEXT        NOT NULL,
    coverUrl            TEXT        NULL,
    authorName          TEXT        NULL,
    dateInserted        DATETIME    DEFAULT CURRENT_TIMESTAMP,
    dateLastChapter     DATETIME    NULL,
    dateFirstChapter    DATETIME    NULL,
    dateLastRead        DATETIME    NULL,
    countChapters       INTEGER     DEFAULT 0
);

CREATE TABLE IF NOT EXISTS WBR_bookProgress (
    bookProgressID      INTEGER         PRIMARY KEY AUTOINCREMENT,
    bookID              VARCHAR(50)     NOT NULL,
    currentChapter      INTEGER         NOT NULL,
    currentPage         INTEGER         NULL,
    currentOffset       INTEGER         NULL
);

CREATE TABLE IF NOT EXISTS WBR_bookTag (
    bookID      VARCHAR(50)     NOT NULL,
    tagName     VARCHAR(500)    NOT NULL,
    PRIMARY KEY (bookID, tagName)
);

CREATE TABLE IF NOT EXISTS WBR_chapter (
    chapterID       VARCHAR(50)                                                   PRIMARY KEY,
    bookID          VARCHAR(50)                                                   NOT NULL,
    foreignUrl      TEXT                                                          NOT NULL,
    title           TEXT                                                          NOT NULL,
    status          TEXT CHECK(status IN ('downloaded', 'pending', 'error'))      NOT NULL,
    datePublished   DATETIME                                                      NOT NULL,
    dateInserted    DATETIME                                                      DEFAULT CURRENT_TIMESTAMP,
    dateUpdated     DATETIME                                                      DEFAULT CURRENT_TIMESTAMP,
    content         TEXT                                                          NOT NULL,
    noteBefore      TEXT                                                          NULL,
    noteAfter       TEXT                                                          NULL
);

",
        ),
    };
    let mut steps: Vec<MigrationStep> = Vec::new();
    steps.push(step);
    steps
}

} // verus!
