//! The dialogue that gathers an operation and its parameters, one answer
//! at a time. The caller asks the question and hands in the line that was
//! typed; what the line means and what is asked next is decided here.

use crate::args::{
    Commands, CommandsView, DislodgeParams, DislodgeParamsView, DownloadParams,
    DownloadParamsView, EmbedOutputMode, EmbedParams, EmbedParamsView, EmbedPreset,
};
use crate::text::{parse_i32, parse_usize, parsed_i32, parsed_usize, same_text, trim, trimmed};
use vstd::prelude::*;
use vstd::string::StringExecFns;

verus! {

/// What an embed is asked about, in the order asked.
#[derive(PartialEq, Eq, Structural, Debug, Copy, Clone)]
pub enum EmbedQuestion {
    /// The path of the input file.
    Input,
    /// A preset, or the custom configuration.
    Preset,
    /// The output mode.
    Mode,
    /// The block size.
    BlockSize,
    /// The resolution.
    Resolution,
    /// The frames per second.
    Fps,
    /// The number of threads.
    Threads,
}

/// What a dislodge is asked about, in the order asked.
#[derive(PartialEq, Eq, Structural, Debug, Copy, Clone)]
pub enum DislodgeQuestion {
    /// The path of the container.
    Input,
    /// The path of the output file.
    Output,
}

/// Where a dialogue stands: the question that is open and what the
/// answers so far said, or the command that the answers made.
pub enum Dialogue {
    /// Which operation?
    Operation,
    /// A question about an embed.
    Embed(EmbedQuestion, EmbedParams),
    /// A question about a dislodge.
    Dislodge(DislodgeQuestion, DislodgeParams),
    /// Which URL to download?
    Download,
    /// Nothing is left to ask.
    Done(Commands),
}

/// A dialogue, each text as its characters.
pub enum DialogueView {
    Operation,
    Embed(EmbedQuestion, EmbedParamsView),
    Dislodge(DislodgeQuestion, DislodgeParamsView),
    Download,
    Done(CommandsView),
}

impl View for Dialogue {
    type V = DialogueView;

    open spec fn view(&self) -> DialogueView {
        match self {
            Dialogue::Operation => DialogueView::Operation,
            Dialogue::Embed(question, params) => DialogueView::Embed(*question, params@),
            Dialogue::Dislodge(question, params) => DialogueView::Dislodge(*question, params@),
            Dialogue::Download => DialogueView::Download,
            Dialogue::Done(command) => DialogueView::Done(command@),
        }
    }
}

/// What an answer led to.
pub struct Turn {
    /// Where the dialogue stands now.
    pub dialogue: Dialogue,
    /// The answer named no operation, and embed was taken for it.
    pub invalid_operation: bool,
}

/// Embed parameters with nothing chosen.
pub open spec fn no_embed_params() -> EmbedParamsView {
    EmbedParamsView {
        in_path: None,
        preset: None,
        mode: None,
        block_size: None,
        threads: None,
        fps: None,
        resolution: None,
    }
}

/// Dislodge parameters with nothing chosen.
pub open spec fn no_dislodge_params() -> DislodgeParamsView {
    DislodgeParamsView { in_path: None, out_path: None }
}

/// An answer that is a text: the line without the white space around it,
/// or nothing where that leaves nothing.
pub open spec fn text_answer(line: Seq<char>) -> Option<Seq<char>> {
    if trimmed(line).len() == 0 {
        None
    } else {
        Some(trimmed(line))
    }
}

/// Whether a line names one of the three operations.
pub open spec fn names_operation(line: Seq<char>) -> bool {
    trimmed(line) == "1"@ || trimmed(line) == "2"@ || trimmed(line) == "3"@
}

/// The resolution token that a choice stands for; any choice but `1` to
/// `5` stands for `360p`.
pub open spec fn resolution_choice(choice: Seq<char>) -> Seq<char> {
    if choice == "1"@ {
        "144p"@
    } else if choice == "2"@ {
        "240p"@
    } else if choice == "3"@ {
        "360p"@
    } else if choice == "4"@ {
        "480p"@
    } else if choice == "5"@ {
        "720p"@
    } else {
        "360p"@
    }
}

/// An embed with the preset `preset` and nothing else but the input path.
pub open spec fn with_preset(params: EmbedParamsView, preset: EmbedPreset) -> DialogueView {
    DialogueView::Done(CommandsView::Embed(EmbedParamsView { preset: Some(preset), ..params }))
}

/// Where an embed stands after the answer `line` to `question`.
pub open spec fn after_embed(
    question: EmbedQuestion,
    params: EmbedParamsView,
    line: Seq<char>,
) -> DialogueView {
    let choice = trimmed(line);
    match question {
        EmbedQuestion::Input => DialogueView::Embed(
            EmbedQuestion::Preset,
            EmbedParamsView { in_path: text_answer(line), ..params },
        ),
        EmbedQuestion::Preset => if choice == "1"@ {
            with_preset(params, EmbedPreset::Optimal)
        } else if choice == "2"@ {
            with_preset(params, EmbedPreset::Paranoid)
        } else if choice == "3"@ {
            with_preset(params, EmbedPreset::MaxEfficiency)
        } else if choice == "4"@ {
            DialogueView::Embed(EmbedQuestion::Mode, params)
        } else {
            with_preset(params, EmbedPreset::Optimal)
        },
        EmbedQuestion::Mode => DialogueView::Embed(
            EmbedQuestion::BlockSize,
            EmbedParamsView {
                mode: Some(
                    if choice == "2"@ {
                        EmbedOutputMode::Colored
                    } else {
                        EmbedOutputMode::Binary
                    },
                ),
                ..params
            },
        ),
        EmbedQuestion::BlockSize => DialogueView::Embed(
            EmbedQuestion::Resolution,
            EmbedParamsView {
                block_size: match parsed_i32(choice) {
                    Some(size) => Some(size),
                    None => params.block_size,
                },
                ..params
            },
        ),
        EmbedQuestion::Resolution => DialogueView::Embed(
            EmbedQuestion::Fps,
            EmbedParamsView { resolution: Some(resolution_choice(choice)), ..params },
        ),
        EmbedQuestion::Fps => DialogueView::Embed(
            EmbedQuestion::Threads,
            EmbedParamsView {
                fps: match parsed_i32(choice) {
                    Some(fps) => Some(fps),
                    None => params.fps,
                },
                ..params
            },
        ),
        EmbedQuestion::Threads => DialogueView::Done(
            CommandsView::Embed(
                EmbedParamsView {
                    threads: match parsed_usize(choice) {
                        Some(threads) => Some(threads),
                        None => params.threads,
                    },
                    ..params
                },
            ),
        ),
    }
}

/// Where a dialogue stands after the answer `line` to its open question.
/// An answer that names no operation stands for embed; a dialogue that is
/// done stays as it is.
pub open spec fn after(dialogue: DialogueView, line: Seq<char>) -> DialogueView {
    match dialogue {
        DialogueView::Operation => if trimmed(line) == "1"@ {
            DialogueView::Embed(EmbedQuestion::Input, no_embed_params())
        } else if trimmed(line) == "2"@ {
            DialogueView::Dislodge(DislodgeQuestion::Input, no_dislodge_params())
        } else if trimmed(line) == "3"@ {
            DialogueView::Download
        } else {
            DialogueView::Embed(EmbedQuestion::Input, no_embed_params())
        },
        DialogueView::Embed(question, params) => after_embed(question, params, line),
        DialogueView::Dislodge(question, params) => match question {
            DislodgeQuestion::Input => DialogueView::Dislodge(
                DislodgeQuestion::Output,
                DislodgeParamsView { in_path: text_answer(line), ..params },
            ),
            DislodgeQuestion::Output => DialogueView::Done(
                CommandsView::Dislodge(
                    DislodgeParamsView { out_path: text_answer(line), ..params },
                ),
            ),
        },
        DialogueView::Download => DialogueView::Done(
            CommandsView::Download(DownloadParamsView { url: text_answer(line) }),
        ),
        DialogueView::Done(command) => DialogueView::Done(command),
    }
}

/// How many answers a dialogue can still take at most.
pub open spec fn questions_left(dialogue: DialogueView) -> nat {
    match dialogue {
        DialogueView::Operation => 8,
        DialogueView::Embed(question, _) => match question {
            EmbedQuestion::Input => 7,
            EmbedQuestion::Preset => 6,
            EmbedQuestion::Mode => 5,
            EmbedQuestion::BlockSize => 4,
            EmbedQuestion::Resolution => 3,
            EmbedQuestion::Fps => 2,
            EmbedQuestion::Threads => 1,
        },
        DialogueView::Dislodge(question, _) => match question {
            DislodgeQuestion::Input => 2,
            DislodgeQuestion::Output => 1,
        },
        DialogueView::Download => 1,
        DialogueView::Done(_) => 0,
    }
}

/// Every answer brings a dialogue nearer to its end, and a dialogue with
/// nothing left to ask is done.
pub proof fn lemma_dialogue_ends(dialogue: DialogueView, line: Seq<char>)
    ensures
        questions_left(dialogue) == 0 <==> dialogue is Done,
        !(dialogue is Done) ==> questions_left(after(dialogue, line)) < questions_left(dialogue),
{
}

/// An answer as a text: the trimmed line, or nothing where it is empty.
fn text_from(line: &str) -> (answer: Option<String>)
    ensures
        crate::args::text_of(answer) == text_answer(line@),
{
    let text = trim(line);
    if text.as_str().is_empty() {
        None
    } else {
        Some(text)
    }
}

/// The resolution token that a choice stands for.
fn resolution_from(choice: &str) -> (token: String)
    ensures
        token@ == resolution_choice(choice@),
{
    if same_text(choice, "1") {
        String::from_str("144p")
    } else if same_text(choice, "2") {
        String::from_str("240p")
    } else if same_text(choice, "3") {
        String::from_str("360p")
    } else if same_text(choice, "4") {
        String::from_str("480p")
    } else if same_text(choice, "5") {
        String::from_str("720p")
    } else {
        String::from_str("360p")
    }
}

/// Takes the answer `line` to an embed's open question.
fn answer_embed(question: EmbedQuestion, params: EmbedParams, line: &str) -> (next: Dialogue)
    ensures
        next@ == after_embed(question, params@, line@),
{
    let mut params = params;
    let choice = trim(line);
    match question {
        EmbedQuestion::Input => {
            params.in_path = text_from(line);
            Dialogue::Embed(EmbedQuestion::Preset, params)
        },
        EmbedQuestion::Preset => {
            if same_text(choice.as_str(), "1") {
                params.preset = Some(EmbedPreset::Optimal);
            } else if same_text(choice.as_str(), "2") {
                params.preset = Some(EmbedPreset::Paranoid);
            } else if same_text(choice.as_str(), "3") {
                params.preset = Some(EmbedPreset::MaxEfficiency);
            } else if same_text(choice.as_str(), "4") {
                return Dialogue::Embed(EmbedQuestion::Mode, params);
            } else {
                params.preset = Some(EmbedPreset::Optimal);
            }
            Dialogue::Done(Commands::Embed(params))
        },
        EmbedQuestion::Mode => {
            params.mode = if same_text(choice.as_str(), "2") {
                Some(EmbedOutputMode::Colored)
            } else {
                Some(EmbedOutputMode::Binary)
            };
            Dialogue::Embed(EmbedQuestion::BlockSize, params)
        },
        EmbedQuestion::BlockSize => {
            if let Some(size) = parse_i32(choice.as_str()) {
                params.block_size = Some(size);
            }
            Dialogue::Embed(EmbedQuestion::Resolution, params)
        },
        EmbedQuestion::Resolution => {
            params.resolution = Some(resolution_from(choice.as_str()));
            Dialogue::Embed(EmbedQuestion::Fps, params)
        },
        EmbedQuestion::Fps => {
            if let Some(fps) = parse_i32(choice.as_str()) {
                params.fps = Some(fps);
            }
            Dialogue::Embed(EmbedQuestion::Threads, params)
        },
        EmbedQuestion::Threads => {
            if let Some(threads) = parse_usize(choice.as_str()) {
                params.threads = Some(threads);
            }
            Dialogue::Done(Commands::Embed(params))
        },
    }
}

/// Starts a dialogue: nothing is asked where a command is given already.
pub fn enrich_arguments(command: Option<Commands>) -> (dialogue: Dialogue)
    ensures
        dialogue@ == match command {
            Some(given) => DialogueView::Done(given@),
            None => DialogueView::Operation,
        },
{
    match command {
        Some(given) => Dialogue::Done(given),
        None => Dialogue::Operation,
    }
}

impl Dialogue {
    /// Takes the answer `line` to the open question.
    pub fn answer(self, line: &str) -> (turn: Turn)
        ensures
            turn.dialogue@ == after(self@, line@),
            turn.invalid_operation == (self is Operation && !names_operation(line@)),
    {
        match self {
            Dialogue::Operation => {
                let choice = trim(line);
                if same_text(choice.as_str(), "1") {
                    Turn {
                        dialogue: Dialogue::Embed(EmbedQuestion::Input, EmbedParams::default()),
                        invalid_operation: false,
                    }
                } else if same_text(choice.as_str(), "2") {
                    Turn {
                        dialogue: Dialogue::Dislodge(
                            DislodgeQuestion::Input,
                            DislodgeParams::default(),
                        ),
                        invalid_operation: false,
                    }
                } else if same_text(choice.as_str(), "3") {
                    Turn { dialogue: Dialogue::Download, invalid_operation: false }
                } else {
                    Turn {
                        dialogue: Dialogue::Embed(EmbedQuestion::Input, EmbedParams::default()),
                        invalid_operation: true,
                    }
                }
            },
            Dialogue::Embed(question, params) => Turn {
                dialogue: answer_embed(question, params, line),
                invalid_operation: false,
            },
            Dialogue::Dislodge(question, params) => {
                let mut params = params;
                match question {
                    DislodgeQuestion::Input => {
                        params.in_path = text_from(line);
                        Turn {
                            dialogue: Dialogue::Dislodge(DislodgeQuestion::Output, params),
                            invalid_operation: false,
                        }
                    },
                    DislodgeQuestion::Output => {
                        params.out_path = text_from(line);
                        Turn {
                            dialogue: Dialogue::Done(Commands::Dislodge(params)),
                            invalid_operation: false,
                        }
                    },
                }
            },
            Dialogue::Download => {
                let params = DownloadParams { url: text_from(line) };
                Turn {
                    dialogue: Dialogue::Done(Commands::Download(params)),
                    invalid_operation: false,
                }
            },
            Dialogue::Done(command) => Turn {
                dialogue: Dialogue::Done(command),
                invalid_operation: false,
            },
        }
    }
}

} // verus!
