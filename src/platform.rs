//! The closed set of supported hosting platforms, their identifiers, and the
//! recognition of post links typed by users.

use vstd::prelude::*;

verus! {

/// Identifier of a media item on a Derpibooru-family platform.
pub type MediaId = u64;

/// One of the supported hosting platforms, in the order their parsers are tried.
#[derive(Clone, Copy, Debug, PartialEq, Eq, Structural, Hash)]
pub enum Platform {
    Derpibooru,
    Furbooru,
    Manebooru,
    Ponerpics,
    Ponybooru,
    Twibooru,
}

/// Number of supported platforms.
pub const PLATFORM_COUNT: usize = 6;

/// The platform at position `k` of the declared order.
pub open spec fn platform_at(k: int) -> Platform {
    if k == 0 {
        Platform::Derpibooru
    } else if k == 1 {
        Platform::Furbooru
    } else if k == 2 {
        Platform::Manebooru
    } else if k == 3 {
        Platform::Ponerpics
    } else if k == 4 {
        Platform::Ponybooru
    } else {
        Platform::Twibooru
    }
}

/// Hosts under which a platform serves post pages; the last one is canonical.
pub open spec fn page_hosts(p: Platform) -> Seq<Seq<char>> {
    match p {
        Platform::Derpibooru => seq!["trixiebooru.org"@, "derpibooru.org"@],
        Platform::Furbooru => seq!["furbooru.org"@],
        Platform::Manebooru => seq!["manebooru.art"@],
        Platform::Ponerpics => seq!["ponerpics.org"@],
        Platform::Ponybooru => seq!["ponybooru.org"@],
        Platform::Twibooru => seq!["twibooru.org"@],
    }
}

/// The host that a platform's own links use.
pub open spec fn canonical_host(p: Platform) -> Seq<char> {
    page_hosts(p).last()
}

/// Prefix of a platform's links to stored image files.
pub open spec fn cdn_prefix(p: Platform) -> Seq<char> {
    match p {
        Platform::Derpibooru => "derpicdn.net/img"@,
        Platform::Furbooru => "furbooru.org/img"@,
        Platform::Manebooru => "manebooru.art/img"@,
        Platform::Ponerpics => "ponerpics.org/img"@,
        Platform::Ponybooru => "ponybooru.org/img"@,
        Platform::Twibooru => "twibooru.org/img"@,
    }
}

/// Human-readable name of a platform.
pub open spec fn platform_name(p: Platform) -> Seq<char> {
    match p {
        Platform::Derpibooru => "Derpibooru"@,
        Platform::Furbooru => "Furbooru"@,
        Platform::Manebooru => "Manebooru"@,
        Platform::Ponerpics => "Ponerpics"@,
        Platform::Ponybooru => "Ponybooru"@,
        Platform::Twibooru => "Twibooru"@,
    }
}

/// The word that names a platform's blob-cache table.
pub open spec fn table_word(p: Platform) -> Seq<char> {
    match p {
        Platform::Derpibooru => "derpibooru"@,
        Platform::Furbooru => "furbooru"@,
        Platform::Manebooru => "manebooru"@,
        Platform::Ponerpics => "ponerpics"@,
        Platform::Ponybooru => "ponybooru"@,
        Platform::Twibooru => "twibooru"@,
    }
}

impl Platform {
    /// The platform at position `k` of the declared order.
    pub fn at(k: usize) -> (r: Platform)
        requires
            k < PLATFORM_COUNT,
        ensures
            r == platform_at(k as int),
    {
        if k == 0 {
            Platform::Derpibooru
        } else if k == 1 {
            Platform::Furbooru
        } else if k == 2 {
            Platform::Manebooru
        } else if k == 3 {
            Platform::Ponerpics
        } else if k == 4 {
            Platform::Ponybooru
        } else {
            Platform::Twibooru
        }
    }

    /// Human-readable name of the platform.
    pub fn name(&self) -> (r: &'static str)
        ensures
            r@ == platform_name(*self),
    {
        match self {
            Platform::Derpibooru => "Derpibooru",
            Platform::Furbooru => "Furbooru",
            Platform::Manebooru => "Manebooru",
            Platform::Ponerpics => "Ponerpics",
            Platform::Ponybooru => "Ponybooru",
            Platform::Twibooru => "Twibooru",
        }
    }

    /// The word that names the platform's blob-cache table.
    pub fn table_word(&self) -> (r: &'static str)
        ensures
            r@ == table_word(*self),
    {
        match self {
            Platform::Derpibooru => "derpibooru",
            Platform::Furbooru => "furbooru",
            Platform::Manebooru => "manebooru",
            Platform::Ponerpics => "ponerpics",
            Platform::Ponybooru => "ponybooru",
            Platform::Twibooru => "twibooru",
        }
    }

    /// Hosts under which the platform serves post pages; the last one is canonical.
    pub fn page_hosts(&self) -> (r: Vec<&'static str>)
        ensures
            r@.len() == page_hosts(*self).len(),
            forall|k: int| 0 <= k < r@.len() ==> r@[k]@ == page_hosts(*self)[k],
    {
        let mut r: Vec<&'static str> = Vec::new();
        match self {
            Platform::Derpibooru => {
                r.push("trixiebooru.org");
                r.push("derpibooru.org");
            },
            Platform::Furbooru => r.push("furbooru.org"),
            Platform::Manebooru => r.push("manebooru.art"),
            Platform::Ponerpics => r.push("ponerpics.org"),
            Platform::Ponybooru => r.push("ponybooru.org"),
            Platform::Twibooru => r.push("twibooru.org"),
        }
        r
    }

    /// Prefix of the platform's links to stored image files.
    pub fn cdn_prefix(&self) -> (r: &'static str)
        ensures
            r@ == cdn_prefix(*self),
    {
        match self {
            Platform::Derpibooru => "derpicdn.net/img",
            Platform::Furbooru => "furbooru.org/img",
            Platform::Manebooru => "manebooru.art/img",
            Platform::Ponerpics => "ponerpics.org/img",
            Platform::Ponybooru => "ponybooru.org/img",
            Platform::Twibooru => "twibooru.org/img",
        }
    }
}

} // verus!
