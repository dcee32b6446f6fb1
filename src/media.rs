//! What the cache answers with, and how a post is captioned when it is sent.

use vstd::prelude::*;
use vstd::string::*;

use crate::markdown::{escape, join_items, join_strings, join_with, link, md_escape, md_link};
use crate::order::{
    artists_ascending, has_artist, has_string, sorted_artists, sorted_strings, strings_ascending,
};
use crate::repo::CdnFileKind;

verus! {

/// An artist credited for a post.
#[derive(Clone, Debug)]
pub struct Artist {
    /// The main nick name or real name the artist is known under.
    pub name: String,
    /// Link to the artist's page, or to a query for their art.
    pub link: String,
}

/// Information specific to the platform that hosts a post.
#[derive(Clone, Debug)]
pub enum MediaHostingSpecific {
    Derpibooru {
        /// Rating tags such as `safe`, `suggestive` or `explicit`, in order.
        ratings: Vec<String>,
    },
}

/// What is shown alongside a cached media file. Its artists, and its rating
/// tags, are sets: each is held in ascending order, without repeats.
#[derive(Debug)]
pub struct MediaMeta {
    /// The artists who created the media, by ascending name, then link.
    artists: Vec<Artist>,
    /// Link to the web page the media comes from.
    link: String,
    /// Hosting information, its ratings in ascending order.
    hosting_specific: MediaHostingSpecific,
}

/// What the cache answers a request with.
#[derive(Debug)]
pub struct Response {
    pub cdn_file_id: String,
    pub cdn_file_kind: CdnFileKind,
    pub meta: MediaMeta,
}

/// Name of the service that hosts the art.
pub open spec fn hosting_name_of(h: MediaHostingSpecific) -> Seq<char> {
    match h {
        MediaHostingSpecific::Derpibooru { .. } => "Derpibooru"@,
    }
}

/// The rating tags carried by the hosting information, as strings.
pub open spec fn rating_strings(h: MediaHostingSpecific) -> Seq<String> {
    match h {
        MediaHostingSpecific::Derpibooru { ratings } => ratings@,
    }
}

/// The rating tags carried by the hosting information.
pub open spec fn ratings_of(h: MediaHostingSpecific) -> Seq<Seq<char>> {
    match h {
        MediaHostingSpecific::Derpibooru { ratings } => ratings@.map_values(|x: String| x@),
    }
}

/// An artist's name, escaped, linked to the artist's page.
pub open spec fn artist_link(a: Artist) -> Seq<char> {
    md_link(a.link@, md_escape(a.name@))
}

/// ` by <artist links>`, or nothing when no artist is known.
pub open spec fn artists_clause(artists: Seq<Artist>) -> Seq<char> {
    if artists.len() == 0 {
        Seq::empty()
    } else {
        " by "@ + join_with(artists.map_values(|a: Artist| artist_link(a)), ", "@)
    }
}

/// ` \(<ratings>\)`, or nothing when the ratings are empty or exactly `safe`.
pub open spec fn ratings_clause(ratings: Seq<Seq<char>>) -> Seq<char> {
    let joined = join_with(ratings, ", "@);
    if joined.len() == 0 || joined == "safe"@ {
        Seq::empty()
    } else {
        " \\("@ + md_escape(joined) + "\\)"@
    }
}

/// The caption of a post: a bold line with a link to the original, the artists
/// and the ratings, each list in the order given.
pub open spec fn caption_of(link: Seq<char>, artists: Seq<Artist>, h: MediaHostingSpecific) -> Seq<char> {
    "*"@ + md_link(link, md_escape("Original ("@ + hosting_name_of(h) + ")"@)) + artists_clause(artists)
        + ratings_clause(ratings_of(h)) + "*"@
}

impl MediaHostingSpecific {
    /// Name of the service that hosts the art.
    pub fn hosting_name(&self) -> (r: &'static str)
        ensures
            r@ == hosting_name_of(*self),
    {
        match self {
            MediaHostingSpecific::Derpibooru { .. } => "Derpibooru",
        }
    }
}

impl MediaMeta {
    /// Artists and ratings are held in ascending order, each once.
    #[verifier::type_invariant]
    spec fn ordered(&self) -> bool {
        &&& artists_ascending(self.artists@)
        &&& strings_ascending(rating_strings(self.hosting_specific))
    }

    /// The artists, by ascending name, then link.
    pub closed spec fn artists_spec(&self) -> Seq<Artist> {
        self.artists@
    }

    /// The link to the web page the media comes from.
    pub closed spec fn link_spec(&self) -> Seq<char> {
        self.link@
    }

    /// The hosting information.
    pub closed spec fn hosting_spec(&self) -> MediaHostingSpecific {
        self.hosting_specific
    }

    /// The artists, by ascending name, then link, each once.
    pub fn artists(&self) -> (r: &Vec<Artist>)
        ensures
            r@ == self.artists_spec(),
            artists_ascending(r@),
    {
        proof {
            use_type_invariant(self);
        }
        &self.artists
    }

    /// The link to the web page the media comes from.
    pub fn link(&self) -> (r: &String)
        ensures
            r@ == self.link_spec(),
    {
        &self.link
    }

    /// The hosting information, its ratings in ascending order, each once.
    pub fn hosting_specific(&self) -> (r: &MediaHostingSpecific)
        ensures
            *r == self.hosting_spec(),
            strings_ascending(rating_strings(*r)),
    {
        proof {
            use_type_invariant(self);
        }
        &self.hosting_specific
    }

    /// Metadata crediting `artists` in ascending order of name, then link,
    /// each name and link once, with the ratings in ascending order, each once.
    pub fn new(artists: Vec<Artist>, link: String, hosting_specific: MediaHostingSpecific) -> (r: Self)
        ensures
            artists_ascending(r.artists_spec()),
            forall|a: Artist| has_artist(r.artists_spec(), a) <==> has_artist(artists@, a),
            r.link_spec() == link@,
            strings_ascending(rating_strings(r.hosting_spec())),
            forall|x: Seq<char>|
                has_string(rating_strings(r.hosting_spec()), x) <==> has_string(
                    rating_strings(hosting_specific),
                    x,
                ),
    {
        let MediaHostingSpecific::Derpibooru { ratings } = hosting_specific;
        MediaMeta {
            artists: sorted_artists(artists),
            link,
            hosting_specific: MediaHostingSpecific::Derpibooru { ratings: sorted_strings(ratings) },
        }
    }

    /// The MarkdownV2 caption: `*[Original (<host>)](<link>) by <artists> \(<ratings>\)*`,
    /// with the artists by ascending name and the ratings in ascending order,
    /// without the artists part when there are none and without the ratings
    /// part when they are empty or exactly `safe`.
    pub fn caption(&self) -> (r: String)
        ensures
            r@ == caption_of(self.link_spec(), self.artists_spec(), self.hosting_spec()),
            artists_ascending(self.artists_spec()),
            strings_ascending(rating_strings(self.hosting_spec())),
    {
        proof {
            use_type_invariant(self);
        }
        let ghost arts = self.artists@;
        let mut links: Vec<String> = Vec::new();
        let mut i: usize = 0;
        while i < self.artists.len()
            invariant
                arts == self.artists@,
                i <= arts.len(),
                links@.len() == i,
                forall|t: int| 0 <= t < i ==> (#[trigger] links@[t])@ == artist_link(arts[t]),
            decreases arts.len() - i,
        {
            let a = &self.artists[i];
            let name = escape(a.name.as_str());
            links.push(link(a.link.as_str(), name.as_str()));
            i = i + 1;
        }
        assert(links@.map_values(|x: String| x@) =~= arts.map_values(|a: Artist| artist_link(a)));
        let artists = if links.len() == 0 {
            String::new()
        } else {
            let mut s = String::from_str(" by ");
            let joined = join_strings(&links, ", ");
            s.append(joined.as_str());
            s
        };
        let MediaHostingSpecific::Derpibooru { ratings } = &self.hosting_specific;
        let joined = join_items(ratings, ", ");
        let ratings = if joined.as_str().is_empty() || joined == String::from_str("safe") {
            String::new()
        } else {
            let mut s = String::from_str(" \\(");
            s.append(escape(joined.as_str()).as_str());
            s.append("\\)");
            s
        };
        let mut title = String::from_str("Original (");
        title.append(self.hosting_specific.hosting_name());
        title.append(")");
        let mut r = String::from_str("*");
        r.append(link(self.link.as_str(), escape(title.as_str()).as_str()).as_str());
        r.append(artists.as_str());
        r.append(ratings.as_str());
        r.append("*");
        r
    }
}

} // verus!
