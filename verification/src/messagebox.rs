//! Modal message-box configuration and its result decoding. The native
//! call itself is issued by the embedding application; this module supplies
//! the flag words handed to it and judges the value it returns.

use crate::Error;
use vstd::prelude::*;

verus! {

/// Message box type configuration. Each variant stands for one of the
/// platform's flag words, given by [`Config::value`]; several may be
/// combined with [`combine`].
#[derive(Clone, Copy, Debug, PartialEq, Eq, Structural)]
pub enum Config {
    /// Three push buttons: Abort, Retry, and Ignore.
    AbortRetryIgnore,
    /// Three push buttons: Cancel, Try Again, Continue.
    CancelTryContinue,
    /// Adds a Help button.
    Help,
    /// Two push buttons: OK and Cancel.
    OkCancel,
    /// Two push buttons: Retry and Cancel.
    RetryCancel,
    /// Two push buttons: Yes and No.
    YesNo,
    /// Three push buttons: Yes, No, and Cancel.
    YesNoCancel,
    /// An exclamation-point icon.
    IconWarning,
    /// A lowercase letter i in a circle as icon.
    IconInformation,
    /// A question-mark icon.
    IconQuestion,
    /// A stop-sign icon.
    IconError,
    /// The second button is the default button.
    DefaultButton2,
    /// The third button is the default button.
    DefaultButton3,
    /// The fourth button is the default button.
    DefaultButton4,
    /// The user must respond before continuing work in the owner window.
    ApplicationModal,
    /// Application modal with the top-most style.
    SystemModal,
    /// Application modal, disabling all the thread's top-level windows when
    /// no owner is given.
    TaskModal,
    /// Shown on the default desktop of the interactive window station.
    DefaultDesktopOnly,
    /// The text is right-justified.
    Right,
    /// Right-to-left reading order on Hebrew and Arabic systems.
    RtlReading,
    /// The message box becomes the foreground window.
    SetForeground,
    /// Created with the top-most window style.
    TopMost,
    /// The caller is a service notifying the user of an event.
    ServiceNotification,
}

impl Config {
    /// The platform flag word this configuration stands for.
    pub fn value(&self) -> (r: u32)
        ensures
            r == self.spec_value(),
    {
        match self {
            Config::AbortRetryIgnore => 0x00000002,
            Config::CancelTryContinue => 0x00000006,
            Config::Help => 0x00004000,
            Config::OkCancel => 0x00000001,
            Config::RetryCancel => 0x00000005,
            Config::YesNo => 0x00000004,
            Config::YesNoCancel => 0x00000003,
            Config::IconWarning => 0x00000030,
            Config::IconInformation => 0x00000040,
            Config::IconQuestion => 0x00000020,
            Config::IconError => 0x00000010,
            Config::DefaultButton2 => 0x00000100,
            Config::DefaultButton3 => 0x00000200,
            Config::DefaultButton4 => 0x00000300,
            Config::ApplicationModal => 0x00000000,
            Config::SystemModal => 0x00001000,
            Config::TaskModal => 0x00002000,
            Config::DefaultDesktopOnly => 0x00020000,
            Config::Right => 0x00080000,
            Config::RtlReading => 0x00100000,
            Config::SetForeground => 0x00010000,
            Config::TopMost => 0x00040000,
            Config::ServiceNotification => 0x00200000,
        }
    }

    /// The flag word, for use in contracts.
    pub open spec fn spec_value(&self) -> u32 {
        match self {
            Config::AbortRetryIgnore => 0x00000002,
            Config::CancelTryContinue => 0x00000006,
            Config::Help => 0x00004000,
            Config::OkCancel => 0x00000001,
            Config::RetryCancel => 0x00000005,
            Config::YesNo => 0x00000004,
            Config::YesNoCancel => 0x00000003,
            Config::IconWarning => 0x00000030,
            Config::IconInformation => 0x00000040,
            Config::IconQuestion => 0x00000020,
            Config::IconError => 0x00000010,
            Config::DefaultButton2 => 0x00000100,
            Config::DefaultButton3 => 0x00000200,
            Config::DefaultButton4 => 0x00000300,
            Config::ApplicationModal => 0x00000000,
            Config::SystemModal => 0x00001000,
            Config::TaskModal => 0x00002000,
            Config::DefaultDesktopOnly => 0x00020000,
            Config::Right => 0x00080000,
            Config::RtlReading => 0x00100000,
            Config::SetForeground => 0x00010000,
            Config::TopMost => 0x00040000,
            Config::ServiceNotification => 0x00200000,
        }
    }
}

/// The combined flag word of a configuration list, folded left to right.
pub open spec fn spec_combine(configs: Seq<Config>) -> u32
    decreases configs.len(),
{
    if configs.len() == 0 {
        0u32
    } else {
        spec_combine(configs.drop_last()) | configs.last().spec_value()
    }
}

/// Folds a configuration list into the single flag word the native call
/// takes. With no configuration the box defaults to one OK push button.
pub fn combine(configs: &[Config]) -> (r: u32)
    ensures
        r == spec_combine(configs@),
{
    let mut acc: u32 = 0;
    let mut i: usize = 0;
    while i < configs.len()
        invariant
            i <= configs@.len(),
            acc == spec_combine(configs@.take(i as int)),
        decreases configs@.len() - i,
    {
        proof {
            assert(configs@.take(i + 1).drop_last() =~= configs@.take(i as int));
            assert(configs@.take(i + 1).last() == configs@[i as int]);
        }
        acc = acc | configs[i].value();
        i = i + 1;
    }
    proof {
        assert(configs@.take(configs@.len() as int) =~= configs@);
    }
    acc
}

/// Indicates which button the user selected.
#[derive(Clone, Copy, Debug, PartialEq, Eq, Structural)]
pub enum Button {
    Abort,
    Cancel,
    Continue,
    Ignore,
    No,
    Okay,
    Retry,
    TryAgain,
    Yes,
}

/// The button a selection identifier stands for, or `None` for an
/// identifier outside the platform's standard set.
pub open spec fn spec_button_from_id(id: i32) -> Option<Button> {
    if id == 1 {
        Some(Button::Okay)
    } else if id == 2 {
        Some(Button::Cancel)
    } else if id == 3 {
        Some(Button::Abort)
    } else if id == 4 {
        Some(Button::Retry)
    } else if id == 5 {
        Some(Button::Ignore)
    } else if id == 6 {
        Some(Button::Yes)
    } else if id == 7 {
        Some(Button::No)
    } else if id == 10 {
        Some(Button::TryAgain)
    } else if id == 11 {
        Some(Button::Continue)
    } else {
        None
    }
}

impl Button {
    /// The selection identifier this button reports.
    pub fn id(&self) -> (r: i32)
        ensures
            spec_button_from_id(r) == Some(*self),
    {
        match self {
            Button::Okay => 1,
            Button::Cancel => 2,
            Button::Abort => 3,
            Button::Retry => 4,
            Button::Ignore => 5,
            Button::Yes => 6,
            Button::No => 7,
            Button::TryAgain => 10,
            Button::Continue => 11,
        }
    }

    /// Decodes a selection identifier: `Ok(Some(..))` for one of the
    /// standard buttons, `Err(())` for any other value.
    pub fn from_id(id: i32) -> (r: Result<Option<Button>, ()>)
        ensures
            spec_button_from_id(id) matches Some(b) ==> r == Result::<Option<Button>, ()>::Ok(
                Some(b),
            ),
            spec_button_from_id(id) is None ==> r is Err,
    {
        if id == 1 {
            Ok(Some(Button::Okay))
        } else if id == 2 {
            Ok(Some(Button::Cancel))
        } else if id == 3 {
            Ok(Some(Button::Abort))
        } else if id == 4 {
            Ok(Some(Button::Retry))
        } else if id == 5 {
            Ok(Some(Button::Ignore))
        } else if id == 6 {
            Ok(Some(Button::Yes))
        } else if id == 7 {
            Ok(Some(Button::No))
        } else if id == 10 {
            Ok(Some(Button::TryAgain))
        } else if id == 11 {
            Ok(Some(Button::Continue))
        } else {
            Err(())
        }
    }
}

/// Judges what the native message-box call returned: zero reports a failed
/// call and carries the last-error code; a standard button identifier names
/// the selected button. The platform returns no other value.
pub fn message_box_outcome(result: i32, last_error: i32) -> (r: Result<Button, Error>)
    requires
        result == 0 || spec_button_from_id(result) is Some,
    ensures
        result == 0 <==> r is Err,
        r matches Err(e) ==> e.spec_code() == last_error,
        r matches Ok(b) ==> spec_button_from_id(result) == Some(b),
{
    if result == 0 {
        Err(Error::from_os_code(last_error))
    } else {
        match Button::from_id(result) {
            Ok(Some(button)) => Ok(button),
            _ => Err(Error::from_os_code(last_error)),
        }
    }
}

} // verus!
