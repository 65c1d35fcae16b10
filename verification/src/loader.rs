//! Loading a dictionary from one file.
//!
//! Opening the file, mapping it and building the engine are done by the
//! caller of this module. This module decides what is done next: it starts
//! with the path, is told how each stage ended, and answers with the next
//! stage or with the end of the call.

use vstd::prelude::*;
use vstd::string::*;
use vstd::utf8::*;
use crate::config::default_config;
use crate::config::minimal_config;
use crate::config::ConfigView;
use crate::config::DictionaryConfig;
use crate::text::decode_text;

verus! {

/// The next thing to do in a loading call.
#[derive(Debug, Clone, PartialEq, Eq)]
pub enum LoadStep {
    /// Open the file at `path` for reading.
    OpenFile { path: String },
    /// Map the opened file into memory, read-only.
    MapFile,
    /// Build the engine from the mapping and `config`, with the character
    /// classes that the engine carries in itself.
    BuildDictionary { config: DictionaryConfig },
    /// Wrap the engine in a handle and return it.
    ReturnHandle,
    /// Return the null handle, after writing `diagnostic` to the log if there
    /// is one.
    ReturnNull { diagnostic: Option<String> },
}

/// A step as a mathematical value.
pub enum LoadStepView {
    OpenFile { path: Seq<char> },
    MapFile,
    BuildDictionary { config: ConfigView },
    ReturnHandle,
    ReturnNull { diagnostic: Option<Seq<char>> },
}

impl View for LoadStep {
    type V = LoadStepView;

    open spec fn view(&self) -> LoadStepView {
        match *self {
            LoadStep::OpenFile { path } => LoadStepView::OpenFile { path: path@ },
            LoadStep::MapFile => LoadStepView::MapFile,
            LoadStep::BuildDictionary { config } => LoadStepView::BuildDictionary { config: config@ },
            LoadStep::ReturnHandle => LoadStepView::ReturnHandle,
            LoadStep::ReturnNull { diagnostic } => LoadStepView::ReturnNull {
                diagnostic: match diagnostic {
                    Some(text) => Some(text@),
                    None => None,
                },
            },
        }
    }
}

/// How a stage ended. `detail` is what the failed stage says about itself.
#[derive(Debug, Clone, PartialEq, Eq)]
pub enum LoadEvent {
    Succeeded,
    Failed { detail: String },
}

/// An event as a mathematical value.
pub enum LoadEventView {
    Succeeded,
    Failed { detail: Seq<char> },
}

impl View for LoadEvent {
    type V = LoadEventView;

    open spec fn view(&self) -> LoadEventView {
        match *self {
            LoadEvent::Succeeded => LoadEventView::Succeeded,
            LoadEvent::Failed { detail } => LoadEventView::Failed { detail: detail@ },
        }
    }
}

/// A path that loading goes on with: present, not empty, and UTF-8.
pub open spec fn usable_path(dict_path: Option<Seq<u8>>) -> bool {
    dict_path matches Some(bytes) && bytes.len() > 0 && valid_utf8(bytes)
}

/// The first step of a loading call. A path that is not usable ends the call
/// at once, without a diagnostic.
pub open spec fn first_step(dict_path: Option<Seq<u8>>) -> LoadStepView {
    if usable_path(dict_path) {
        LoadStepView::OpenFile { path: decode_utf8(dict_path->0) }
    } else {
        LoadStepView::ReturnNull { diagnostic: None }
    }
}

/// The step that follows `step` once its stage has ended with `event`. A
/// failed stage ends the call with that stage's diagnostic; a call that has
/// ended stays as it is.
pub open spec fn next_step(step: LoadStepView, event: LoadEventView) -> LoadStepView {
    match step {
        LoadStepView::OpenFile { path } => match event {
            LoadEventView::Succeeded => LoadStepView::MapFile,
            LoadEventView::Failed { .. } => LoadStepView::ReturnNull {
                diagnostic: Some("Failed to open dictionary file: "@ + path),
            },
        },
        LoadStepView::MapFile => match event {
            LoadEventView::Succeeded => LoadStepView::BuildDictionary { config: minimal_config() },
            LoadEventView::Failed { .. } => LoadStepView::ReturnNull {
                diagnostic: Some("Failed to memory map dictionary file"@),
            },
        },
        LoadStepView::BuildDictionary { .. } => match event {
            LoadEventView::Succeeded => LoadStepView::ReturnHandle,
            LoadEventView::Failed { detail } => LoadStepView::ReturnNull {
                diagnostic: Some("Failed to create dictionary: "@ + detail),
            },
        },
        LoadStepView::ReturnHandle => LoadStepView::ReturnHandle,
        LoadStepView::ReturnNull { diagnostic } => LoadStepView::ReturnNull { diagnostic },
    }
}

/// Opens a loading call with the path the caller gave.
pub fn sudachi_init(dict_path: Option<&[u8]>) -> (step: LoadStep)
    ensures
        step@ == first_step(
            match dict_path {
                Some(bytes) => Some(bytes@),
                None => None,
            },
        ),
{
    let bytes = match dict_path {
        Some(bytes) => bytes,
        None => { return LoadStep::ReturnNull { diagnostic: None }; },
    };
    if bytes.len() == 0 {
        return LoadStep::ReturnNull { diagnostic: None };
    }
    match decode_text(bytes) {
        Some(path) => LoadStep::OpenFile { path },
        None => LoadStep::ReturnNull { diagnostic: None },
    }
}

/// Goes on with a loading call once the stage of `step` has ended.
pub fn continue_init(step: LoadStep, event: LoadEvent) -> (next: LoadStep)
    ensures
        next@ == next_step(step@, event@),
{
    match step {
        LoadStep::OpenFile { path } => match event {
            LoadEvent::Succeeded => LoadStep::MapFile,
            LoadEvent::Failed { .. } => {
                let mut message = "Failed to open dictionary file: ".to_owned();
                message.append(path.as_str());
                LoadStep::ReturnNull { diagnostic: Some(message) }
            },
        },
        LoadStep::MapFile => match event {
            LoadEvent::Succeeded => LoadStep::BuildDictionary { config: default_config() },
            LoadEvent::Failed { .. } => LoadStep::ReturnNull {
                diagnostic: Some("Failed to memory map dictionary file".to_owned()),
            },
        },
        LoadStep::BuildDictionary { .. } => match event {
            LoadEvent::Succeeded => LoadStep::ReturnHandle,
            LoadEvent::Failed { detail } => {
                let mut message = "Failed to create dictionary: ".to_owned();
                message.append(detail.as_str());
                LoadStep::ReturnNull { diagnostic: Some(message) }
            },
        },
        LoadStep::ReturnHandle => LoadStep::ReturnHandle,
        LoadStep::ReturnNull { diagnostic } => LoadStep::ReturnNull { diagnostic },
    }
}

/// Where a call stands after its three stages have ended with `opened`,
/// `mapped` and `built`.
pub open spec fn outcome(
    dict_path: Option<Seq<u8>>,
    opened: LoadEventView,
    mapped: LoadEventView,
    built: LoadEventView,
) -> LoadStepView {
    next_step(next_step(next_step(first_step(dict_path), opened), mapped), built)
}

/// A loading call ends with a handle or with the null handle, and it ends with
/// a handle exactly when the path is usable and the file could be opened,
/// mapped and built into an engine.
pub proof fn lemma_handle_iff_every_stage_succeeds(
    dict_path: Option<Seq<u8>>,
    opened: LoadEventView,
    mapped: LoadEventView,
    built: LoadEventView,
)
    ensures
        outcome(dict_path, opened, mapped, built) is ReturnHandle || outcome(
            dict_path,
            opened,
            mapped,
            built,
        ) is ReturnNull,
        outcome(dict_path, opened, mapped, built) is ReturnHandle <==> usable_path(dict_path)
            && opened is Succeeded && mapped is Succeeded && built is Succeeded,
        !usable_path(dict_path) ==> outcome(dict_path, opened, mapped, built)
            == (LoadStepView::ReturnNull { diagnostic: None }),
{
}

} // verus!
