//! Plain data carriers: the Project entity, its request/response subsets,
//! and the uniform success/error envelopes returned by every endpoint.

use vstd::prelude::*;

verus! {

/// One row of the upstream Project table. The upstream service assigns `id`;
/// this crate never stores a Project itself.
#[derive(Debug, Clone, PartialEq, Eq)]
pub struct Project {
    pub id: String,
    pub name: String,
    pub description: String,
    pub status: String,
}

/// Mathematical image of a [`Project`]: each field as a character sequence.
pub struct ProjectView {
    pub id: Seq<char>,
    pub name: Seq<char>,
    pub description: Seq<char>,
    pub status: Seq<char>,
}

impl View for Project {
    type V = ProjectView;

    open spec fn view(&self) -> ProjectView {
        ProjectView {
            id: self.id@,
            name: self.name@,
            description: self.description@,
            status: self.status@,
        }
    }
}

/// The creatable/updatable subset of a Project: everything but the
/// upstream-assigned identifier.
#[derive(Debug, Clone, PartialEq, Eq)]
pub struct ProjectRequest {
    pub name: String,
    pub description: String,
    pub status: String,
}

/// Mathematical image of a [`ProjectRequest`].
pub struct ProjectRequestView {
    pub name: Seq<char>,
    pub description: Seq<char>,
    pub status: Seq<char>,
}

impl View for ProjectRequest {
    type V = ProjectRequestView;

    open spec fn view(&self) -> ProjectRequestView {
        ProjectRequestView {
            name: self.name@,
            description: self.description@,
            status: self.status@,
        }
    }
}

/// Minimal acknowledgment of a write: the identifier the upstream assigned.
#[derive(Debug, Clone, PartialEq, Eq)]
pub struct ProjectResponse {
    pub id: String,
}

/// Mathematical image of a [`ProjectResponse`].
pub struct ProjectResponseView {
    pub id: Seq<char>,
}

impl View for ProjectResponse {
    type V = ProjectResponseView;

    open spec fn view(&self) -> ProjectResponseView {
        ProjectResponseView { id: self.id@ }
    }
}

/// The uniform success envelope: a status code, a short message, and the
/// payload of the operation.
#[derive(Debug, Clone, PartialEq, Eq)]
pub struct APIResponse<T> {
    pub status: u16,
    pub message: String,
    pub data: Option<T>,
}

/// Mathematical image of an [`APIResponse`], over the payload's own view.
pub struct APIResponseView<T> {
    pub status: u16,
    pub message: Seq<char>,
    pub data: Option<T>,
}

impl<T: View> View for APIResponse<T> {
    type V = APIResponseView<T::V>;

    open spec fn view(&self) -> APIResponseView<T::V> {
        APIResponseView {
            status: self.status,
            message: self.message@,
            data: match self.data {
                Some(d) => Some(d@),
                None => None,
            },
        }
    }
}

/// The uniform error envelope: like [`APIResponse`], with a diagnostic
/// string in place of a payload.
#[derive(Debug, Clone, PartialEq, Eq)]
pub struct APIErrorResponse {
    pub status: u16,
    pub message: String,
    pub data: Option<String>,
}

/// Mathematical image of an [`APIErrorResponse`].
pub struct APIErrorResponseView {
    pub status: u16,
    pub message: Seq<char>,
    pub data: Option<Seq<char>>,
}

impl View for APIErrorResponse {
    type V = APIErrorResponseView;

    open spec fn view(&self) -> APIErrorResponseView {
        APIErrorResponseView {
            status: self.status,
            message: self.message@,
            data: match self.data {
                Some(d) => Some(d@),
                None => None,
            },
        }
    }
}

} // verus!
