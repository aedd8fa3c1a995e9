//! The metadata service: catalog entries and the mock lookup backend.

use vstd::prelude::*;
use vstd::string::*;

verus! {

/// One entry of the catalog, as it travels over the message channel.
pub struct MediaItem {
    pub id: String,
    pub title: String,
    pub year: i32,
    pub poster: String,
}

/// The mathematical shape of a catalog entry.
#[verifier::ext_equal]
pub ghost struct MediaItemModel {
    pub id: Seq<char>,
    pub title: Seq<char>,
    pub year: int,
    pub poster: Seq<char>,
}

impl View for MediaItem {
    type V = MediaItemModel;

    open spec fn view(&self) -> MediaItemModel {
        MediaItemModel {
            id: self.id@,
            title: self.title@,
            year: self.year as int,
            poster: self.poster@,
        }
    }
}

impl DeepView for MediaItem {
    type V = MediaItemModel;

    open spec fn deep_view(&self) -> MediaItemModel {
        self@
    }
}

/// The two entries that every mock search returns.
pub open spec fn spec_search_results() -> Seq<MediaItemModel> {
    seq![
        MediaItemModel {
            id: "tt1375666"@,
            title: "Inception"@,
            year: 2010,
            poster: "https://m.media-amazon.com/images/M/MV5BMjAxMzY3NjcxNF5BMl5BanBnXkFtZTcwNTI5OTM0Mw@@._V1_FMjpg_UX1000_.jpg"@,
        },
        MediaItemModel {
            id: "tt0816692"@,
            title: "Interstellar"@,
            year: 2014,
            poster: "https://m.media-amazon.com/images/M/MV5BZjdkOTU3MDktN2IxOS00OGEyLWFmMjktY2FiMmZkNWIyODZiXkEyXkFqcGdeQXVyMTMxODk2OTU@._V1_FMjpg_UX1000_.jpg"@,
        },
    ]
}

/// The full catalog: the search results followed by one more entry.
pub open spec fn spec_catalog() -> Seq<MediaItemModel> {
    spec_search_results().push(
        MediaItemModel {
            id: "tt0137523"@,
            title: "Fight Club"@,
            year: 1999,
            poster: "https://m.media-amazon.com/images/M/MV5BNDIzNDU0YzEtYzE5Ni00ZjlkLTk5ZjgtNjM3NWE4YzA3Nzk3XkEyXkFqcGdeQXVyMjUzOTY1NTc@._V1_FMjpg_UX1000_.jpg"@,
        },
    )
}

/// A stand-in metadata backend that serves a fixed catalog.
pub struct MockMetadataService;

impl MockMetadataService {
    pub fn new() -> (s: Self) {
        MockMetadataService
    }

    /// The mock ignores the query and always reports the same results.
    pub fn search(&self, query: &str) -> (r: Vec<MediaItem>)
        ensures
            r.deep_view() == spec_search_results(),
    {
        let mut r: Vec<MediaItem> = Vec::new();
        r.push(MediaItem {
            id: String::from_str("tt1375666"),
            title: String::from_str("Inception"),
            year: 2010,
            poster: String::from_str("https://m.media-amazon.com/images/M/MV5BMjAxMzY3NjcxNF5BMl5BanBnXkFtZTcwNTI5OTM0Mw@@._V1_FMjpg_UX1000_.jpg"),
        });
        r.push(MediaItem {
            id: String::from_str("tt0816692"),
            title: String::from_str("Interstellar"),
            year: 2014,
            poster: String::from_str("https://m.media-amazon.com/images/M/MV5BZjdkOTU3MDktN2IxOS00OGEyLWFmMjktY2FiMmZkNWIyODZiXkEyXkFqcGdeQXVyMTMxODk2OTU@._V1_FMjpg_UX1000_.jpg"),
        });
        proof {
            assert(r.deep_view() =~~= spec_search_results());
        }
        r
    }

    /// The full catalog: the search results plus one more entry.
    pub fn get_catalog(&self) -> (r: Vec<MediaItem>)
        ensures
            r.deep_view() == spec_catalog(),
    {
        let mut r = self.search("");
        r.push(MediaItem {
            id: String::from_str("tt0137523"),
            title: String::from_str("Fight Club"),
            year: 1999,
            poster: String::from_str("https://m.media-amazon.com/images/M/MV5BNDIzNDU0YzEtYzE5Ni00ZjlkLTk5ZjgtNjM3NWE4YzA3Nzk3XkEyXkFqcGdeQXVyMjUzOTY1NTc@._V1_FMjpg_UX1000_.jpg"),
        });
        proof {
            assert(r.deep_view() =~~= spec_catalog());
        }
        r
    }
}

} // verus!
