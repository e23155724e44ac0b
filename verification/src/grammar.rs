//! Document rendering. No grammar is defined yet: every document renders to
//! the empty page.

use vstd::prelude::*;
use crate::http::{plain_reply, Reply, ReplyView, StatusCode};

verus! {

/// The body of a render request.
#[derive(Debug, Clone, PartialEq, Eq)]
pub struct RenderDocumentParam {
    pub content: String,
}

/// The mathematical value of a [`RenderDocumentParam`].
pub struct RenderDocumentParamView {
    pub content: Seq<char>,
}

impl View for RenderDocumentParam {
    type V = RenderDocumentParamView;

    open spec fn view(&self) -> RenderDocumentParamView {
        RenderDocumentParamView { content: self.content@ }
    }
}

/// The payload of a render reply.
#[derive(Debug, Clone, PartialEq, Eq)]
pub struct RenderDocumentResponse {
    pub success: bool,
    pub html: String,
}

/// The mathematical value of a [`RenderDocumentResponse`].
pub struct RenderDocumentResponseView {
    pub success: bool,
    pub html: Seq<char>,
}

impl View for RenderDocumentResponse {
    type V = RenderDocumentResponseView;

    open spec fn view(&self) -> RenderDocumentResponseView {
        RenderDocumentResponseView { success: self.success, html: self.html@ }
    }
}

/// The reply to every render request: status 200, success, and no markup.
pub open spec fn rendered_nothing() -> ReplyView<RenderDocumentResponseView> {
    plain_reply(
        StatusCode::Success,
        RenderDocumentResponseView { success: true, html: Seq::empty() },
    )
}

/// Renders a document. The content is accepted and not read.
pub fn render_document(_body: RenderDocumentParam) -> (reply: Reply<RenderDocumentResponse>)
    ensures
        reply@ == rendered_nothing(),
{
    Reply::plain(StatusCode::Success, RenderDocumentResponse { success: true, html: String::new() })
}

} // verus!
