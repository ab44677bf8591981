//! The article records handed to the persistence collaborator.
//!
//! The library only decides *what* is persisted; the database sits outside
//! and receives these plain values.

use vstd::prelude::*;

verus! {

/// A saved link before it has an identity in the store.
///
/// `url` holds the serialized form of an absolute URL, exactly as the
/// URL parser returned it.
#[derive(Clone, Debug, PartialEq)]
pub struct ArticleData {
    pub user_id: i64,
    pub url: String,
    pub title: Option<String>,
}

/// A stored article: the persisted record plus its row identity.
#[derive(Clone, Debug, PartialEq)]
pub struct Article {
    pub id: i64,
    pub data: ArticleData,
}

/// The mathematical value of an article record.
pub struct ArticleDataS {
    pub user_id: i64,
    pub url: Seq<char>,
    pub title: Option<Seq<char>>,
}

impl View for ArticleData {
    type V = ArticleDataS;

    open spec fn view(&self) -> ArticleDataS {
        ArticleDataS {
            user_id: self.user_id,
            url: self.url@,
            title: self.title.deep_view(),
        }
    }
}

} // verus!
