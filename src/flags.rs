//! Mode flags: combinations refused before any request, and model choice.

use vstd::prelude::*;

verus! {

/// The chat model used when none is named.
pub const DEFAULT_MODEL: &'static str = "o3-mini";

/// The image model used when the chat default is left in place.
pub const DEFAULT_IMAGE_MODEL: &'static str = "dall-e-3";

/// The default bound on the words of an answer.
pub const MAX_WORDS: u32 = 500;

pub const DEFAULT_IMAGE_SIZE: &'static str = "1024x1024";

pub const DEFAULT_IMAGE_QUALITY: &'static str = "standard";

pub const DEFAULT_IMAGE_STYLE: &'static str = "vivid";

/// A refused combination of mode flags.
#[derive(Clone, Copy, PartialEq, Eq, Structural, Debug)]
pub enum FlagError {
    QuietWithoutVoice,
    ImageWithInteractive,
    ImageWithVoice,
}

/// The explanation shown to the user for a refused combination.
pub open spec fn flag_message(e: FlagError) -> Seq<char> {
    match e {
        FlagError::QuietWithoutVoice => "Quiet mode requires voice output to be enabled."@,
        FlagError::ImageWithInteractive => "Image generation is not compatible with interactive mode."@,
        FlagError::ImageWithVoice => "Image generation is not compatible with voice output mode."@,
    }
}

impl FlagError {
    /// The explanation shown to the user.
    pub fn message(&self) -> (r: &'static str)
        ensures
            r@ == flag_message(*self),
    {
        match self {
            FlagError::QuietWithoutVoice => "Quiet mode requires voice output to be enabled.",
            FlagError::ImageWithInteractive => "Image generation is not compatible with interactive mode.",
            FlagError::ImageWithVoice => "Image generation is not compatible with voice output mode.",
        }
    }
}

/// The refused combinations among the flags, in a fixed order.
pub open spec fn flag_errors(quiet: bool, voice: bool, image: bool, interactive: bool) -> Seq<
    FlagError,
> {
    (if quiet && !voice {
        seq![FlagError::QuietWithoutVoice]
    } else {
        Seq::empty()
    }) + (if image && interactive {
        seq![FlagError::ImageWithInteractive]
    } else {
        Seq::empty()
    }) + (if image && voice {
        seq![FlagError::ImageWithVoice]
    } else {
        Seq::empty()
    })
}

/// Lists every refused combination among the flags; an empty list means
/// the flags are accepted.
pub fn validate_flags(quiet: bool, voice: bool, image: bool, interactive: bool) -> (r: Vec<
    FlagError,
>)
    ensures
        r@ == flag_errors(quiet, voice, image, interactive),
{
    let mut r: Vec<FlagError> = Vec::new();
    if quiet && !voice {
        r.push(FlagError::QuietWithoutVoice);
    }
    if image && interactive {
        r.push(FlagError::ImageWithInteractive);
    }
    if image && voice {
        r.push(FlagError::ImageWithVoice);
    }
    assert(r@ =~= flag_errors(quiet, voice, image, interactive));
    r
}

/// The model for an image request: the chat default stands for the image
/// default; any other name is used as given.
pub open spec fn image_model_for(model: Seq<char>) -> Seq<char> {
    if model == DEFAULT_MODEL@ {
        DEFAULT_IMAGE_MODEL@
    } else {
        model
    }
}

/// Chooses the model for an image request.
pub fn image_model(model: &str) -> (r: String)
    ensures
        r@ == image_model_for(model@),
{
    let m = String::from_str(model);
    if m == String::from_str(DEFAULT_MODEL) {
        String::from_str(DEFAULT_IMAGE_MODEL)
    } else {
        m
    }
}

/// What a run does, decided from its flags before any request.
#[derive(Debug)]
pub enum RunPlan {
    /// The flags are refused, for these reasons.
    Rejected(Vec<FlagError>),
    /// Generate one image for the prompt.
    GenerateImage,
    /// Image generation was asked for without a prompt.
    MissingImagePrompt,
    /// Chat in a loop of prompts.
    Interactive,
    /// Answer the one prompt given.
    SinglePrompt,
    /// Nothing to do: show the usage.
    ShowHelp,
}

/// Decides what a run does from its mode flags and whether a prompt was
/// given; refused flag combinations come first.
pub fn plan_run(quiet: bool, voice: bool, image: bool, interactive: bool, has_prompt: bool) -> (r:
    RunPlan)
    ensures
        (flag_errors(quiet, voice, image, interactive).len() > 0) == (r is Rejected),
        r matches RunPlan::Rejected(es) ==> es@ == flag_errors(quiet, voice, image, interactive),
        flag_errors(quiet, voice, image, interactive).len() == 0 ==> {
            &&& (r is GenerateImage) == (image && has_prompt)
            &&& (r is MissingImagePrompt) == (image && !has_prompt)
            &&& (r is Interactive) == (!image && interactive)
            &&& (r is SinglePrompt) == (!image && !interactive && has_prompt)
            &&& (r is ShowHelp) == (!image && !interactive && !has_prompt)
        },
{
    let errors = validate_flags(quiet, voice, image, interactive);
    if errors.len() > 0 {
        RunPlan::Rejected(errors)
    } else if image {
        if has_prompt {
            RunPlan::GenerateImage
        } else {
            RunPlan::MissingImagePrompt
        }
    } else if interactive {
        RunPlan::Interactive
    } else if has_prompt {
        RunPlan::SinglePrompt
    } else {
        RunPlan::ShowHelp
    }
}

/// The lowercase form of `s`, as Unicode defines it.
pub uninterp spec fn lower_of(s: Seq<char>) -> Seq<char>;

/// Relies on str::to_lowercase: the result depends on the characters alone,
/// and an empty text stays empty.
#[verifier::external_body]
fn lowercase(s: &str) -> (r: String)
    ensures
        r@ == lower_of(s@),
        s@.len() == 0 ==> r@.len() == 0,
{
    s.to_lowercase()
}

/// The word that ends an interactive session, in any letter case.
pub const EXIT_WORD: &'static str = "exit";

/// Whether an interactive session goes on after reading `input`, whose
/// lowercase form is `folded`: it stops on empty input or the exit word.
pub fn continues_with_folded(input: &str, folded: &str) -> (r: bool)
    ensures
        r == (input@.len() > 0 && folded@ != EXIT_WORD@),
{
    input.unicode_len() > 0 && String::from_str(folded) != String::from_str(EXIT_WORD)
}

/// Whether an interactive session goes on after reading `input`.
pub fn session_continues(input: &str) -> (r: bool)
    ensures
        r == (input@.len() > 0 && lower_of(input@) != EXIT_WORD@),
{
    let folded = lowercase(input);
    continues_with_folded(input, folded.as_str())
}

} // verus!
