//! Database adapter boundary: connection state, and the decisions the adapter makes
//! before and after it talks to the database.

use vstd::prelude::*;

pub mod actions;
pub mod auth_identities;
pub mod auth_settings;
pub mod email_tokens;
pub mod issue_labels;
pub mod issues;
pub mod lfs;
pub mod org_members;
pub mod packages;
pub mod pats;
pub mod pulls;
pub mod redirects;
pub mod releases;
pub mod repo_collaborators;
pub mod repositories;
pub mod ssh_keys;
pub mod stars;
pub mod templates;
pub mod users;
pub mod webhooks;

verus! {

/// SQL dialect of the configured database.
#[derive(Debug, Clone, Copy, PartialEq, Eq, Structural)]
pub enum Dialect {
    Postgres,
    MySql,
    Sqlite,
}

/// Handle on the configured database: a connection pool of type `P` and its dialect,
/// or neither when no database is configured.
pub struct Database<P> {
    pool: Option<P>,
    dialect: Option<Dialect>,
}

impl<P> Database<P> {
    /// A handle has a dialect exactly when it has a pool.
    #[verifier::type_invariant]
    spec fn dialect_matches_pool(self) -> bool {
        self.pool is None <==> self.dialect is None
    }

    /// The pool, if one is configured.
    pub closed spec fn spec_pool(&self) -> Option<P> {
        self.pool
    }

    /// The dialect, if a database is configured.
    pub closed spec fn spec_dialect(&self) -> Option<Dialect> {
        self.dialect
    }

    /// A handle with no database configured.
    pub fn skipped() -> (db: Self)
        ensures
            db.spec_pool() is None,
            db.spec_dialect() is None,
    {
        Database { pool: None, dialect: None }
    }

    /// A handle on a connected pool of the given dialect.
    pub fn with_pool(pool: P, dialect: Dialect) -> (db: Self)
        ensures
            db.spec_pool() == Some(pool),
            db.spec_dialect() == Some(dialect),
    {
        Database { pool: Some(pool), dialect: Some(dialect) }
    }

    /// True when no database pool is configured.
    pub fn is_skipped(&self) -> (b: bool)
        ensures
            b == (self.spec_pool() is None),
            b == (self.spec_dialect() is None),
    {
        proof {
            use_type_invariant(self);
        }
        self.pool.is_none()
    }

    /// The dialect; it is absent exactly when no pool is configured.
    pub fn dialect(&self) -> (d: Option<Dialect>)
        ensures
            d == self.spec_dialect(),
            d is None <==> self.spec_pool() is None,
    {
        proof {
            use_type_invariant(self);
        }
        self.dialect
    }

    /// The pool, or the error every database operation reports when none is configured.
    pub fn require_pool(&self) -> (r: Result<&P, String>)
        ensures
            match r {
                Ok(p) => self.spec_pool() == Some(*p) && self.spec_dialect() is Some,
                Err(e) => self.spec_pool() is None && self.spec_dialect() is None
                    && e@ == "database not configured"@,
            },
    {
        proof {
            use_type_invariant(self);
        }
        match &self.pool {
            Some(p) => Ok(p),
            None => Err(String::from_str("database not configured")),
        }
    }
}


impl<P: Clone> Clone for Database<P> {
    /// A handle on a clone of the same pool, with the same dialect.
    fn clone(&self) -> (c: Self)
        ensures
            c.spec_dialect() == self.spec_dialect(),
            c.spec_pool() is None <==> self.spec_pool() is None,
    {
        proof {
            use_type_invariant(self);
        }
        match &self.pool {
            Some(p) => Database { pool: Some(p.clone()), dialect: self.dialect },
            None => Database { pool: None, dialect: None },
        }
    }
}

/// What a health check reports for the database: `skipped` when none is configured
/// (`query_ok` is `None`), otherwise `ok` or `error` by whether a trivial query succeeded.
pub fn ping_outcome(query_ok: Option<bool>) -> (r: &'static str)
    ensures
        r@ == (match query_ok {
            None => "skipped"@,
            Some(true) => "ok"@,
            Some(false) => "error"@,
        }),
{
    match query_ok {
        None => "skipped",
        Some(true) => "ok",
        Some(false) => "error",
    }
}

} // verus!
