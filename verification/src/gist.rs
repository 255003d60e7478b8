//! Sharing a submission as a gist: what is uploaded, and what is made of
//! the answer.

use crate::code::{Code, CodeView, SourceUnit, SourceUnitView, units_view};
use crate::errors::{ApiError, ApiErrorView};
use crate::text::option_view;
use crate::workspace::SOURCE_EXTENSION;
use vstd::prelude::*;
use vstd::string::*;

verus! {

/// Where gists are created.
pub const GIST_ENDPOINT: &'static str = "https://api.github.com/gists";

/// The user agent the upload is sent under.
pub const GIST_USER_AGENT: &'static str = "playmove-api";

/// The media type asked for in the answer.
pub const GIST_ACCEPT: &'static str = "application/vnd.github+json";

/// The description every gist gets.
pub const GIST_DESCRIPTION: &'static str =
    "A gist created by playmove.dev -- the Move Browser Playground!";

/// What a client is told where no credential is configured.
pub const SHARING_DISABLED_MESSAGE: &'static str = "Sharing is not enabled on this instance.";

/// What a client is told where the upload was turned down.
pub const GIST_FAILED_MESSAGE: &'static str = "Failed to create gist. Try again later.";

/// A gist that was created.
#[derive(Debug, PartialEq, Eq)]
pub struct GistUrl {
    pub id: String,
    pub url: String,
}

/// The model of [`GistUrl`]: the same value, with texts and lists as sequences.
pub struct GistUrlView {
    pub id: Seq<char>,
    pub url: Seq<char>,
}

impl View for GistUrl {
    type V = GistUrlView;

    open spec fn view(&self) -> GistUrlView {
        GistUrlView { id: self.id@, url: self.url@ }
    }
}

/// One file of a gist.
#[derive(Debug, PartialEq, Eq)]
pub struct GistFile {
    pub file_name: String,
    pub content: String,
}

/// The model of [`GistFile`]: the same value, with texts and lists as sequences.
pub struct GistFileView {
    pub file_name: Seq<char>,
    pub content: Seq<char>,
}

impl View for GistFile {
    type V = GistFileView;

    open spec fn view(&self) -> GistFileView {
        GistFileView { file_name: self.file_name@, content: self.content@ }
    }
}

/// A list of gist files, each by its view.
pub open spec fn gist_files_view(files: Seq<GistFile>) -> Seq<GistFileView> {
    Seq::new(files.len(), |i: int| files[i]@)
}

/// An upload to make. The files are entered in order under their names, so
/// that of two files with one name the later one stands.
#[derive(Debug, PartialEq, Eq)]
pub struct GistRequest {
    pub token: String,
    pub description: String,
    pub public: bool,
    pub files: Vec<GistFile>,
}

/// The model of [`GistRequest`]: the same value, with texts and lists as sequences.
pub struct GistRequestView {
    pub token: Seq<char>,
    pub description: Seq<char>,
    pub public: bool,
    pub files: Seq<GistFileView>,
}

impl View for GistRequest {
    type V = GistRequestView;

    open spec fn view(&self) -> GistRequestView {
        GistRequestView {
            token: self.token@,
            description: self.description@,
            public: self.public,
            files: gist_files_view(self.files@),
        }
    }
}

/// The gist files of `units`, in order: each under its name with the
/// source extension.
pub open spec fn gist_files_of(units: Seq<SourceUnitView>) -> Seq<GistFileView> {
    Seq::new(
        units.len(),
        |i: int|
            GistFileView { file_name: units[i].name + SOURCE_EXTENSION@, content: units[i].content },
    )
}

/// The upload that shares `code` under `token`: a private gist of the
/// sources, then the tests.
pub open spec fn gist_request(code: CodeView, token: Seq<char>) -> GistRequestView {
    GistRequestView {
        token,
        description: GIST_DESCRIPTION@,
        public: false,
        files: gist_files_of(code.sources) + gist_files_of(code.tests),
    }
}

/// What sharing `code` comes to before anything is sent: an error where no
/// credential is configured, else the upload to make.
pub open spec fn publish_decision(code: CodeView, token: Option<Seq<char>>) -> Result<
    GistRequestView,
    ApiErrorView,
> {
    match token {
        None => Err(ApiErrorView::InternalServerError(SHARING_DISABLED_MESSAGE@)),
        Some(t) => Ok(gist_request(code, t)),
    }
}

/// What a request to share `code` comes to before anything is sent: a
/// submission that fails validation is turned away first.
pub open spec fn share_decision(code: CodeView, token: Option<Seq<char>>) -> Result<
    GistRequestView,
    ApiErrorView,
> {
    match code.validation_error() {
        Some(message) => Err(ApiErrorView::BadRequest(message)),
        None => publish_decision(code, token),
    }
}

/// What is made of the answer to an upload: the gist's id and address,
/// each empty where the answer does not give it as a text; or an error, where
/// the upload was turned down.
pub open spec fn gist_outcome(
    accepted: bool,
    id: Option<Seq<char>>,
    html_url: Option<Seq<char>>,
) -> Result<GistUrlView, ApiErrorView> {
    if accepted {
        Ok(
            GistUrlView {
                id: match id {
                    Some(t) => t,
                    None => Seq::empty(),
                },
                url: match html_url {
                    Some(t) => t,
                    None => Seq::empty(),
                },
            },
        )
    } else {
        Err(ApiErrorView::InternalServerError(GIST_FAILED_MESSAGE@))
    }
}

/// A result of this module by its view.
pub open spec fn request_result_view(res: Result<GistRequest, ApiError>) -> Result<
    GistRequestView,
    ApiErrorView,
> {
    match res {
        Ok(request) => Ok(request@),
        Err(error) => Err(error@),
    }
}

/// A result of this module by its view.
pub open spec fn url_result_view(res: Result<GistUrl, ApiError>) -> Result<
    GistUrlView,
    ApiErrorView,
> {
    match res {
        Ok(url) => Ok(url@),
        Err(error) => Err(error@),
    }
}

/// Adds the gist file of each unit, in order.
fn push_gist_files(files: &mut Vec<GistFile>, units: &Vec<SourceUnit>)
    ensures
        gist_files_view(final(files)@) == gist_files_view(old(files)@) + gist_files_of(
            units_view(units@),
        ),
{
    let ghost before = gist_files_view(files@);
    let mut i: usize = 0;
    while i < units.len()
        invariant
            0 <= i <= units.len(),
            gist_files_view(files@) == before + gist_files_of(units_view(units@)).take(i as int),
        decreases units.len() - i,
    {
        let mut file_name = units[i].name.clone();
        file_name.append(SOURCE_EXTENSION);
        let file = GistFile { file_name, content: units[i].content.clone() };
        let ghost prior = gist_files_view(files@);
        files.push(file);
        proof {
            let all = gist_files_of(units_view(units@));
            assert(units_view(units@)[i as int] == units@[i as int]@);
            assert(file@ == all[i as int]);
            assert(gist_files_view(files@) =~= prior.push(file@));
            assert(all.take(i as int + 1) =~= all.take(i as int).push(all[i as int]));
        }
        i = i + 1;
    }
    proof {
        let all = gist_files_of(units_view(units@));
        assert(all.take(i as int) =~= all);
    }
}

/// Prepares the upload that shares `code`, provided a credential is
/// configured.
pub fn publish_gist(code: &Code, token: Option<String>) -> (res: Result<GistRequest, ApiError>)
    ensures
        request_result_view(res) == publish_decision(code@, option_view(token)),
{
    match token {
        None => Err(ApiError::InternalServerError(String::from_str(SHARING_DISABLED_MESSAGE))),
        Some(token) => {
            let mut files: Vec<GistFile> = Vec::new();
            assert(gist_files_view(files@) =~= Seq::empty());
            push_gist_files(&mut files, &code.sources);
            push_gist_files(&mut files, &code.tests);
            assert(gist_files_view(files@) =~= gist_files_of(code@.sources) + gist_files_of(
                code@.tests,
            ));
            Ok(
                GistRequest {
                    token,
                    description: String::from_str(GIST_DESCRIPTION),
                    public: false,
                    files,
                },
            )
        },
    }
}

impl Code {
    /// Prepares the upload that shares this submission: validation comes
    /// first, the credential second.
    pub fn share(&self, token: Option<String>) -> (res: Result<GistRequest, ApiError>)
        ensures
            request_result_view(res) == share_decision(self@, option_view(token)),
    {
        match self.validate_file_names() {
            Err(error) => Err(error),
            Ok(()) => publish_gist(self, token),
        }
    }
}

impl GistUrl {
    /// Reads the answer to an upload. `accepted` says whether the status of
    /// the answer was a success; `id` and `html_url` are the fields of
    /// those names in its body, where they hold a text.
    pub fn from_response(accepted: bool, id: Option<String>, html_url: Option<String>) -> (res:
        Result<GistUrl, ApiError>)
        ensures
            url_result_view(res) == gist_outcome(
                accepted,
                option_view(id),
                option_view(html_url),
            ),
    {
        if accepted {
            let id = match id {
                Some(t) => t,
                None => String::new(),
            };
            let url = match html_url {
                Some(t) => t,
                None => String::new(),
            };
            Ok(GistUrl { id, url })
        } else {
            Err(ApiError::InternalServerError(String::from_str(GIST_FAILED_MESSAGE)))
        }
    }
}

} // verus!
