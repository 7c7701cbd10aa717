//! Instance template packs and template repositories.

use vstd::prelude::*;

verus! {

#[derive(Debug, Clone)]
pub struct InstanceTemplatePackRow {
    pub id: String,
    pub slug: String,
    pub label: String,
    pub group: String,
    pub description: String,
    pub default_gitignore: Option<String>,
    pub enabled: bool,
    pub byte_size: i64,
    pub content_digest: String,
    pub uploaded_by_user_id: String,
    pub created_at: String,
    pub updated_at: String,
}

#[derive(Debug, Clone)]
pub struct TemplateRepoListRow {
    pub id: String,
    pub owner_id: String,
    pub owner_type: String,
    pub owner_slug: String,
    pub name: String,
    pub description: String,
    pub visibility: String,
}


/// The values a template pack update writes.
#[derive(Debug, Clone, Copy)]
pub struct TemplatePackUpdate<'a> {
    pub label: &'a str,
    pub group: &'a str,
    pub description: &'a str,
    pub default_gitignore: Option<&'a str>,
}

/// Merges an update into the current pack: each field given (for the gitignore, `Some(v)`,
/// which may clear it with `Some(None)`) replaces the current value; omitted ones keep it.
pub fn merge_pack_update<'a>(
    current: &'a InstanceTemplatePackRow,
    label: Option<&'a str>,
    group: Option<&'a str>,
    description: Option<&'a str>,
    default_gitignore: Option<Option<&'a str>>,
) -> (r: TemplatePackUpdate<'a>)
    ensures
        r.label@ == (match label { Some(v) => v@, None => current.label@ }),
        r.group@ == (match group { Some(v) => v@, None => current.group@ }),
        r.description@ == (match description { Some(v) => v@, None => current.description@ }),
        match default_gitignore {
            Some(v) => match v {
                Some(g) => r.default_gitignore matches Some(x) && x@ == g@,
                None => r.default_gitignore is None,
            },
            None => match current.default_gitignore {
                Some(g) => r.default_gitignore matches Some(x) && x@ == g@,
                None => r.default_gitignore is None,
            },
        },
{
    let gi = match default_gitignore {
        Some(v) => v,
        None => match &current.default_gitignore {
            Some(g) => Some(g.as_str()),
            None => None,
        },
    };
    TemplatePackUpdate {
        label: match label {
            Some(v) => v,
            None => current.label.as_str(),
        },
        group: match group {
            Some(v) => v,
            None => current.group.as_str(),
        },
        description: match description {
            Some(v) => v,
            None => current.description.as_str(),
        },
        default_gitignore: gi,
    }
}

} // verus!
