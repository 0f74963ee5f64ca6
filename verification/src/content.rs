//! Request and response shapes of the content endpoints: articles,
//! glossary entries, images and audio.  These endpoints are mechanical
//! store-and-echo plumbing; what is verified here is the echo itself —
//! the response a handler owes the caller for a freshly stored row.

use vstd::prelude::*;

use crate::verify::view_opt_string;

verus! {

/// A new article, as posted.
pub struct ArticleData {
    pub title: String,
    pub content: String,
    pub authorid: String,
    pub ispublished: String,
    pub language: String,
    pub readtime: String,
    pub subheading: String,
    pub isarchived: String,
    pub realtitle: String,
    pub ismainpage: String,
    pub isurltitledifferent: String,
    pub mobiletitle: String,
}

/// A stored article, as echoed back.
pub struct ArticleResponse {
    pub id: Option<String>,
    pub title: Option<String>,
    pub content: Option<String>,
    pub authorid: Option<String>,
    pub ispublished: Option<String>,
    pub language: Option<String>,
    pub readtime: Option<String>,
    pub subheading: Option<String>,
    pub isarchived: Option<String>,
    pub realtitle: Option<String>,
    pub ismainpage: Option<String>,
    pub isurltitledifferent: Option<String>,
    pub mobiletitle: Option<String>,
}

impl ArticleResponse {
    /// The response owed for an article stored under a fresh id: the
    /// posted fields echoed back unchanged, each present.
    pub fn echoed(data: ArticleData, id: String) -> (r: ArticleResponse)
        ensures
            view_opt_string(r.id) == Some(id@),
            view_opt_string(r.title) == Some(data.title@),
            view_opt_string(r.content) == Some(data.content@),
            view_opt_string(r.authorid) == Some(data.authorid@),
            view_opt_string(r.ispublished) == Some(data.ispublished@),
            view_opt_string(r.language) == Some(data.language@),
            view_opt_string(r.readtime) == Some(data.readtime@),
            view_opt_string(r.subheading) == Some(data.subheading@),
            view_opt_string(r.isarchived) == Some(data.isarchived@),
            view_opt_string(r.realtitle) == Some(data.realtitle@),
            view_opt_string(r.ismainpage) == Some(data.ismainpage@),
            view_opt_string(r.isurltitledifferent) == Some(data.isurltitledifferent@),
            view_opt_string(r.mobiletitle) == Some(data.mobiletitle@),
    {
        ArticleResponse {
            id: Some(id),
            title: Some(data.title),
            content: Some(data.content),
            authorid: Some(data.authorid),
            ispublished: Some(data.ispublished),
            language: Some(data.language),
            readtime: Some(data.readtime),
            subheading: Some(data.subheading),
            isarchived: Some(data.isarchived),
            realtitle: Some(data.realtitle),
            ismainpage: Some(data.ismainpage),
            isurltitledifferent: Some(data.isurltitledifferent),
            mobiletitle: Some(data.mobiletitle),
        }
    }
}

/// A new glossary entry, as posted.
pub struct GlossaryData {
    pub title: String,
    pub definition: String,
}

/// A stored glossary entry, as echoed back or listed.
pub struct GlossaryResponse {
    pub id: Option<String>,
    pub title: Option<String>,
    pub definition: Option<String>,
}

impl GlossaryResponse {
    /// The response owed for an entry stored under a fresh id.
    pub fn echoed(data: GlossaryData, id: String) -> (r: GlossaryResponse)
        ensures
            view_opt_string(r.id) == Some(id@),
            view_opt_string(r.title) == Some(data.title@),
            view_opt_string(r.definition) == Some(data.definition@),
    {
        GlossaryResponse {
            id: Some(id),
            title: Some(data.title),
            definition: Some(data.definition),
        }
    }
}

/// A request to pull an image's bytes into the store.
pub struct ImageData {
    pub url: String,
}

/// A stored image row, as echoed back.
pub struct ImageResponse {
    pub id: Option<String>,
    pub url: Option<String>,
    pub is_indb: Option<i32>,
}

impl ImageResponse {
    /// The response owed once an image's bytes are stored: the row now
    /// counts as held in the store.
    pub fn stored(id: Option<String>, url: Option<String>) -> (r: ImageResponse)
        ensures
            view_opt_string(r.id) == view_opt_string(id),
            view_opt_string(r.url) == view_opt_string(url),
            r.is_indb == Some(1i32),
    {
        ImageResponse { id, url, is_indb: Some(1) }
    }
}

/// A request to pull an audio file's bytes into the store.
pub struct AudioData {
    pub url: String,
}

/// A stored audio row, as echoed back.
pub struct AudioResponse {
    pub id: Option<String>,
    pub url: Option<String>,
    pub is_indb: Option<i32>,
}

impl AudioResponse {
    /// The response owed once an audio file's bytes are stored.
    pub fn stored(id: Option<String>, url: Option<String>) -> (r: AudioResponse)
        ensures
            view_opt_string(r.id) == view_opt_string(id),
            view_opt_string(r.url) == view_opt_string(url),
            r.is_indb == Some(1i32),
    {
        AudioResponse { id, url, is_indb: Some(1) }
    }
}

} // verus!
