//! Request processors: stored snippets of code, each under a stable
//! identifier.

use vstd::prelude::*;
use crate::error::{ErrorView, Rejection, RequestProcessorError};
use crate::ident::fresh_id;
use crate::text::text_eq;

verus! {

/// The languages in which a processor's code may be written.
#[derive(Clone, Copy, Debug, PartialEq, Eq, Structural)]
pub enum RequestProcessorLanguage {
    Javascript,
}

/// The runtimes on which a processor's code may run.
#[derive(Clone, Copy, Debug, PartialEq, Eq, Structural)]
pub enum RequestProcessorRuntime {
    V8,
}

/// The text with which a string that names no variant is turned down.
pub open spec fn no_variant_text() -> Seq<char> {
    "Matching variant not found"@
}

impl RequestProcessorLanguage {
    /// The tag of the language.
    pub open spec fn tag_text(self) -> Seq<char> {
        match self {
            RequestProcessorLanguage::Javascript => "javascript"@,
        }
    }

    /// The tag of the language, in lower case.
    pub fn tag(&self) -> (text: &'static str)
        ensures
            text@ == self.tag_text(),
    {
        match self {
            RequestProcessorLanguage::Javascript => "javascript",
        }
    }

    /// Reads a tag. Only `javascript` names a language.
    pub fn from_tag(text: &str) -> (read: Result<RequestProcessorLanguage, RequestProcessorError>)
        ensures
            match read {
                Ok(l) => text@ == "javascript"@ && l == RequestProcessorLanguage::Javascript,
                Err(e) => text@ != "javascript"@ && e@ == ErrorView::Parse(no_variant_text()),
            },
    {
        if text_eq(text, "javascript") {
            Ok(RequestProcessorLanguage::Javascript)
        } else {
            Err(RequestProcessorError::Parse("Matching variant not found".to_owned()))
        }
    }
}

impl RequestProcessorRuntime {
    /// The tag of the runtime.
    pub open spec fn tag_text(self) -> Seq<char> {
        match self {
            RequestProcessorRuntime::V8 => "v8"@,
        }
    }

    /// The tag of the runtime, in lower case.
    pub fn tag(&self) -> (text: &'static str)
        ensures
            text@ == self.tag_text(),
    {
        match self {
            RequestProcessorRuntime::V8 => "v8",
        }
    }

    /// Reads a tag. Only `v8` names a runtime.
    pub fn from_tag(text: &str) -> (read: Result<RequestProcessorRuntime, RequestProcessorError>)
        ensures
            match read {
                Ok(r) => text@ == "v8"@ && r == RequestProcessorRuntime::V8,
                Err(e) => text@ != "v8"@ && e@ == ErrorView::Parse(no_variant_text()),
            },
    {
        if text_eq(text, "v8") {
            Ok(RequestProcessorRuntime::V8)
        } else {
            Err(RequestProcessorError::Parse("Matching variant not found".to_owned()))
        }
    }
}

/// A stored snippet of code that processes requests.
#[derive(Debug)]
pub struct RequestProcessor {
    pub id: u128,
    pub name: String,
    pub language: RequestProcessorLanguage,
    pub runtime: RequestProcessorRuntime,
    pub code: String,
    pub user_id: String,
}

/// The mathematical value of a processor.
pub struct RequestProcessorView {
    pub id: u128,
    pub name: Seq<char>,
    pub language: RequestProcessorLanguage,
    pub runtime: RequestProcessorRuntime,
    pub code: Seq<char>,
    pub user_id: Seq<char>,
}

impl View for RequestProcessor {
    type V = RequestProcessorView;

    open spec fn view(&self) -> RequestProcessorView {
        RequestProcessorView {
            id: self.id,
            name: self.name@,
            language: self.language,
            runtime: self.runtime,
            code: self.code@,
            user_id: self.user_id@,
        }
    }
}

/// A processor as a client describes it: without identifier or owner, and
/// with its language and runtime still as tags.
#[derive(Debug)]
pub struct ProcessorDraft {
    pub name: String,
    pub language: String,
    pub runtime: String,
    pub code: String,
}

/// The mathematical value of a description of a processor.
pub struct ProcessorDraftView {
    pub name: Seq<char>,
    pub language: Seq<char>,
    pub runtime: Seq<char>,
    pub code: Seq<char>,
}

impl View for ProcessorDraft {
    type V = ProcessorDraftView;

    open spec fn view(&self) -> ProcessorDraftView {
        ProcessorDraftView {
            name: self.name@,
            language: self.language@,
            runtime: self.runtime@,
            code: self.code@,
        }
    }
}

/// The owner of a processor whose client names none.
pub open spec fn anonymous() -> Seq<char> {
    "anonymous"@
}

/// The owner that a client's user identifier stands for.
pub open spec fn owner_text(user_id: Option<String>) -> Seq<char> {
    match user_id {
        Some(u) => u@,
        None => anonymous(),
    }
}

/// The text with which a description with an unknown tag is turned down.
pub open spec fn unknown_tag_text() -> Seq<char> {
    "Unable to parse to enum: "@ + no_variant_text()
}

/// The processor that a description describes, for the owner and under the
/// identifier given; or, where the language of the description is not
/// `javascript` or its runtime is not `v8`, the text with which the
/// description is turned down.
pub open spec fn drafted(draft: ProcessorDraftView, owner: Seq<char>, id: u128) -> Result<
    RequestProcessorView,
    Seq<char>,
> {
    if draft.language == "javascript"@ && draft.runtime == "v8"@ {
        Ok(
            RequestProcessorView {
                id,
                name: draft.name,
                language: RequestProcessorLanguage::Javascript,
                runtime: RequestProcessorRuntime::V8,
                code: draft.code,
                user_id: owner,
            },
        )
    } else {
        Err(unknown_tag_text())
    }
}

/// `made` is the processor `described`, or turns a request down as one with
/// an unreadable body, with the text `described`.
pub open spec fn made_as(
    made: Result<RequestProcessor, Rejection>,
    described: Result<RequestProcessorView, Seq<char>>,
) -> bool {
    match described {
        Ok(v) => made matches Ok(p) && p@ == v,
        Err(text) => made matches Err(Rejection::BodyDeserialize(m)) && m@ == text,
    }
}

/// The identifier of the processor made; any identifier where none was
/// made.
pub open spec fn made_id(made: Result<RequestProcessor, Rejection>) -> u128 {
    match made {
        Ok(p) => p.id,
        Err(_) => 0,
    }
}

/// The owner that a client's user identifier stands for: the identifier,
/// or `anonymous` where the client gives none.
pub fn owner_of(user_id: Option<String>) -> (owner: String)
    ensures
        owner@ == owner_text(user_id),
{
    match user_id {
        Some(u) => u,
        None => "anonymous".to_owned(),
    }
}

impl RequestProcessor {
    /// A copy of the processor.
    pub fn duplicate(&self) -> (copy: RequestProcessor)
        ensures
            copy@ == self@,
    {
        RequestProcessor {
            id: self.id,
            name: self.name.clone(),
            language: self.language,
            runtime: self.runtime,
            code: self.code.clone(),
            user_id: self.user_id.clone(),
        }
    }

    /// Makes the processor that a client describes, under the identifier
    /// given. The description is turned down as an unreadable body exactly
    /// when its language is not `javascript` or its runtime is not `v8`.
    pub fn from_draft_with_id(draft: ProcessorDraft, user_id: Option<String>, id: u128) -> (made:
        Result<RequestProcessor, Rejection>)
        ensures
            made_as(made, drafted(draft@, owner_text(user_id), id)),
    {
        let language = match RequestProcessorLanguage::from_tag(draft.language.as_str()) {
            Ok(l) => l,
            Err(e) => {
                return Err(Rejection::BodyDeserialize(e.message()));
            },
        };
        let runtime = match RequestProcessorRuntime::from_tag(draft.runtime.as_str()) {
            Ok(r) => r,
            Err(e) => {
                return Err(Rejection::BodyDeserialize(e.message()));
            },
        };
        let owner = owner_of(user_id);
        Ok(RequestProcessor { id, name: draft.name, language, runtime, code: draft.code, user_id: owner })
    }

    /// Makes the processor that a client describes, under a fresh identifier.
    /// The description is turned down as an unreadable body exactly when its
    /// language is not `javascript` or its runtime is not `v8`.
    pub fn from_draft(draft: ProcessorDraft, user_id: Option<String>) -> (made: Result<
        RequestProcessor,
        Rejection,
    >)
        ensures
            made_as(made, drafted(draft@, owner_text(user_id), made_id(made))),
    {
        RequestProcessor::from_draft_with_id(draft, user_id, fresh_id())
    }
}

} // verus!
