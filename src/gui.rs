use vstd::prelude::*;

verus! {

/// The size of a GUI, in pixels or in the windowing API's logical units.
#[derive(Clone, Copy, PartialEq, Eq, Hash, Debug, Structural)]
pub struct GuiSize {
    pub width: u32,
    pub height: u32,
}

/// How a GUI may be resized.
#[derive(Clone, Copy, PartialEq, Eq, Hash, Debug, Structural)]
pub struct GuiResizeHints {
    pub can_resize_horizontally: bool,
    pub can_resize_vertically: bool,
    pub preserve_aspect_ratio: bool,
    pub aspect_ratio_width: u32,
    pub aspect_ratio_height: u32,
}

/// The step of GUI negotiation that the peer refused or could not take.
#[derive(Clone, Copy, PartialEq, Eq, Hash, Debug, Structural)]
pub enum GuiError {
    /// Creating the GUI failed.
    CreateError,
    /// Setting the scale or the size failed.
    SetScaleError,
    /// Embedding into, or staying above, a window failed.
    SetParentError,
    /// Showing or hiding the GUI failed.
    ShowError,
    /// The host refused a resize request.
    ResizeError,
    /// The host refused to show the GUI.
    RequestShowError,
    /// The host refused to hide the GUI.
    RequestHideError,
}

/// The plugin-side GUI operations whose reply is only success or failure.
#[derive(Clone, Copy, PartialEq, Eq, Hash, Debug, Structural)]
pub enum GuiOperation {
    Create,
    SetScale,
    SetSize,
    SetParent,
    SetTransient,
    Show,
    Hide,
}

/// The error of an operation whose function pointer the plugin left unset.
pub open spec fn absent_error(op: GuiOperation) -> GuiError {
    match op {
        GuiOperation::Create => GuiError::CreateError,
        GuiOperation::SetScale => GuiError::SetScaleError,
        GuiOperation::SetSize => GuiError::SetScaleError,
        GuiOperation::SetParent => GuiError::SetParentError,
        GuiOperation::SetTransient => GuiError::SetParentError,
        GuiOperation::Show => GuiError::ShowError,
        GuiOperation::Hide => GuiError::ShowError,
    }
}

/// The error of an operation that the plugin answered with `false`.
pub open spec fn rejected_error(op: GuiOperation) -> GuiError {
    match op {
        GuiOperation::Create => GuiError::CreateError,
        GuiOperation::SetScale => GuiError::SetScaleError,
        GuiOperation::SetSize => GuiError::SetScaleError,
        GuiOperation::SetParent => GuiError::SetParentError,
        GuiOperation::SetTransient => GuiError::SetParentError,
        GuiOperation::Show => GuiError::ShowError,
        GuiOperation::Hide => GuiError::ShowError,
    }
}

/// The result of a success-or-failure operation, from the plugin's reply: `None`
/// when the function pointer is unset, else the boolean it returned.
pub open spec fn spec_operation_result(op: GuiOperation, reply: Option<bool>) -> Result<
    (),
    GuiError,
> {
    match reply {
        None => Err(absent_error(op)),
        Some(true) => Ok(()),
        Some(false) => Err(rejected_error(op)),
    }
}

/// Whether a reply to `is_api_supported` or `can_resize` says yes; an unset
/// function pointer says no.
pub open spec fn spec_affirmed(reply: Option<bool>) -> bool {
    reply == Some(true)
}

/// The size a `get_size` reply gives: only a successful call with a non-zero width
/// and height gives one.
pub open spec fn spec_size(reply: Option<(bool, u32, u32)>) -> Option<GuiSize> {
    match reply {
        Some((true, w, h)) => if w != 0 && h != 0 {
            Some(GuiSize { width: w, height: h })
        } else {
            None
        },
        _ => None,
    }
}

/// The hints a `get_resize_hints` reply gives: only a successful call that wrote
/// both aspect-ratio parts (neither left at `u32::MAX`) gives them.
pub open spec fn spec_resize_hints(reply: Option<(bool, GuiResizeHints)>) -> Option<
    GuiResizeHints,
> {
    match reply {
        Some((true, h)) => if h.aspect_ratio_width != u32::MAX && h.aspect_ratio_height
            != u32::MAX {
            Some(h)
        } else {
            None
        },
        _ => None,
    }
}

/// The size an `adjust_size` reply gives: the adjusted size, on success.
pub open spec fn spec_adjusted_size(reply: Option<(bool, GuiSize)>) -> Option<GuiSize> {
    match reply {
        Some((true, s)) => Some(s),
        _ => None,
    }
}

/// Whether a `get_preferred_api` reply names a preferred API and floating state:
/// the call succeeded and wrote an API name.
pub open spec fn spec_preferred_api(reply: Option<bool>, api_written: bool) -> bool {
    reply == Some(true) && api_written
}

/// Turns the reply to a success-or-failure operation into its result: an
/// unset function pointer and a `false` reply each give that operation's error.
pub fn operation_result(op: GuiOperation, reply: Option<bool>) -> (r: Result<(), GuiError>)
    ensures
        r == spec_operation_result(op, reply),
{
    match reply {
        None => Err(
            match op {
                GuiOperation::Create => GuiError::CreateError,
                GuiOperation::SetScale => GuiError::SetScaleError,
                GuiOperation::SetSize => GuiError::SetScaleError,
                GuiOperation::SetParent => GuiError::SetParentError,
                GuiOperation::SetTransient => GuiError::SetParentError,
                GuiOperation::Show => GuiError::ShowError,
                GuiOperation::Hide => GuiError::ShowError,
            },
        ),
        Some(true) => Ok(()),
        Some(false) => Err(
            match op {
                GuiOperation::Create => GuiError::CreateError,
                GuiOperation::SetScale => GuiError::SetScaleError,
                GuiOperation::SetSize => GuiError::SetScaleError,
                GuiOperation::SetParent => GuiError::SetParentError,
                GuiOperation::SetTransient => GuiError::SetParentError,
                GuiOperation::Show => GuiError::ShowError,
                GuiOperation::Hide => GuiError::ShowError,
            },
        ),
    }
}

/// The answer of `is_api_supported`: `false` when the function pointer is unset.
pub fn is_api_supported(reply: Option<bool>) -> (r: bool)
    ensures
        r == spec_affirmed(reply),
{
    match reply {
        Some(answer) => answer,
        None => false,
    }
}

/// The answer of `can_resize`: `false` when the function pointer is unset.
pub fn can_resize(reply: Option<bool>) -> (r: bool)
    ensures
        r == spec_affirmed(reply),
{
    match reply {
        Some(answer) => answer,
        None => false,
    }
}

/// Whether `get_preferred_api` gave a preference: `false` when the function pointer
/// is unset, the call failed, or no API name was written.
pub fn has_preferred_api(reply: Option<bool>, api_written: bool) -> (r: bool)
    ensures
        r == spec_preferred_api(reply, api_written),
{
    match reply {
        Some(success) => success && api_written,
        None => false,
    }
}

/// The size given by `get_size`, from its success flag and the width and height it
/// wrote; `None` when the pointer is unset, the call failed, or a side is zero.
pub fn get_size(reply: Option<(bool, u32, u32)>) -> (r: Option<GuiSize>)
    ensures
        r == spec_size(reply),
{
    match reply {
        Some((success, width, height)) => if success && width != 0 && height != 0 {
            Some(GuiSize { width, height })
        } else {
            None
        },
        None => None,
    }
}

/// The hints written before `get_resize_hints` is called: both aspect-ratio parts
/// at the `u32::MAX` sentinel, so that a plugin that writes nothing is noticed.
pub fn unwritten_resize_hints() -> (r: GuiResizeHints)
    ensures
        r == (GuiResizeHints {
            can_resize_horizontally: true,
            can_resize_vertically: true,
            preserve_aspect_ratio: true,
            aspect_ratio_width: u32::MAX,
            aspect_ratio_height: u32::MAX,
        }),
{
    GuiResizeHints {
        can_resize_horizontally: true,
        can_resize_vertically: true,
        preserve_aspect_ratio: true,
        aspect_ratio_width: u32::MAX,
        aspect_ratio_height: u32::MAX,
    }
}

/// The hints given by `get_resize_hints`; `None` when the pointer is unset, the
/// call failed, or an aspect-ratio part was left at its sentinel.
pub fn get_resize_hints(reply: Option<(bool, GuiResizeHints)>) -> (r: Option<GuiResizeHints>)
    ensures
        r == spec_resize_hints(reply),
{
    match reply {
        Some((success, hints)) => if success && hints.aspect_ratio_width != u32::MAX
            && hints.aspect_ratio_height != u32::MAX {
            Some(hints)
        } else {
            None
        },
        None => None,
    }
}

/// The size given by `adjust_size`; `None` when the pointer is unset or the call
/// failed.
pub fn adjust_size(reply: Option<(bool, GuiSize)>) -> (r: Option<GuiSize>)
    ensures
        r == spec_adjusted_size(reply),
{
    match reply {
        Some((true, size)) => Some(size),
        _ => None,
    }
}

/// The boolean handed back across the boundary for a host-side request: `true` only
/// when the handler ran and accepted; a refusal, or a handler that could not run,
/// gives `false`.
pub fn request_reply(outcome: Option<Result<(), GuiError>>) -> (r: bool)
    ensures
        r == (outcome matches Some(Ok(_))),
{
    match outcome {
        Some(Ok(_)) => true,
        _ => false,
    }
}

/// A GUI extension whose operation pointers are all unset answers every query with
/// its neutral value: no support, no resizing, no size, no hints, no preference.
pub proof fn lemma_absent_queries_are_neutral(api_written: bool)
    ensures
        !spec_affirmed(None),
        spec_size(None) is None,
        spec_resize_hints(None) is None,
        spec_adjusted_size(None) is None,
        !spec_preferred_api(None, api_written),
{
}

/// An operation reports success exactly when the plugin offers it and answers
/// `true`; otherwise it yields an error, never a silent success.
pub proof fn lemma_operation_succeeds_only_when_accepted(op: GuiOperation, reply: Option<bool>)
    ensures
        spec_operation_result(op, reply) is Ok <==> reply == Some(true),
{
}

} // verus!
