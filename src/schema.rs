use vstd::prelude::*;

verus! {

/// Where the application keeps its database, relative to its data directory.
pub const DATABASE_URL: &'static str = "sqlite:wordma.db";

/// The first schema version: creates the `site`, `settings` and `article`
/// tables where they are missing, and seeds one article and one site only
/// where the table is still empty, so running it again adds no row.
pub const SCHEMA_V1_SQL: &'static str = "CREATE TABLE IF NOT EXISTS site (
                id INTEGER PRIMARY KEY AUTOINCREMENT,
                name TEXT NOT NULL,
                description TEXT,
                created_at DATETIME DEFAULT CURRENT_TIMESTAMP
            );
            CREATE TABLE IF NOT EXISTS settings (
                key TEXT PRIMARY KEY,
                value TEXT
            );
            CREATE TABLE IF NOT EXISTS article (
                id INTEGER PRIMARY KEY AUTOINCREMENT,
                title TEXT NOT NULL,
                content TEXT,
                type TEXT NOT NULL DEFAULT 'markdown',
                summary TEXT,
                cover TEXT,
                status TEXT DEFAULT 'draft',
                created_at DATETIME DEFAULT CURRENT_TIMESTAMP,
                updated_at DATETIME DEFAULT CURRENT_TIMESTAMP
            );
            INSERT INTO article (title, content, type, summary, status)
            SELECT '欢迎使用 Wordma', '# Hello Wordma\n\n这是一个示例 Markdown 文章。你可以在这里开始你的写作之旅！', 'markdown', '这是第一篇文章的摘要', 'published'
            WHERE NOT EXISTS (SELECT 1 FROM article);
            INSERT INTO site (name, description)
            SELECT '默认站点', '这是初始化创建的站点描述'
            WHERE NOT EXISTS (SELECT 1 FROM site);
            ";

/// Whether a migration brings the schema up to its version or back down.
#[derive(Clone, Copy, Debug, PartialEq, Eq, Structural)]
pub enum MigrationKind {
    Up,
    Down,
}

/// One versioned SQL script of the database schema.
#[derive(Clone, Copy, Debug)]
pub struct Migration {
    pub version: i64,
    pub description: &'static str,
    pub sql: &'static str,
    pub kind: MigrationKind,
}

/// A migration list is applied in order, each version once: the versions are
/// positive and strictly increasing.
pub open spec fn versions_ascending(ms: Seq<Migration>) -> bool {
    &&& forall|i: int| 0 <= i < ms.len() ==> ms[i].version > 0
    &&& forall|i: int, j: int| 0 <= i < j < ms.len() ==> ms[i].version < ms[j].version
}

/// The schema's migrations, oldest first.
pub fn migrations() -> (r: Vec<Migration>)
    ensures
        r@.len() == 1,
        r@[0].version == 1,
        r@[0].description@ == "ensure_tables_exist"@,
        r@[0].sql@ == SCHEMA_V1_SQL@,
        r@[0].kind == MigrationKind::Up,
        versions_ascending(r@),
{
    vec![
        Migration {
            version: 1,
            description: "ensure_tables_exist",
            sql: SCHEMA_V1_SQL,
            kind: MigrationKind::Up,
        },
    ]
}

} // verus!
