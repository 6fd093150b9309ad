//! Laws of the environment dispatcher, proved once over every state.
//!
//! Each proof function here states a guarantee of the external protocol over
//! the transition [`env_step`] that
//! [`crate::environment::RetroEnvironment::handle_environment_call`] is
//! proved to implement.

use vstd::prelude::*;

use crate::commands::RETRO_ENVIRONMENT_SET_ROTATION;
use crate::commands::RETRO_ENVIRONMENT_SET_MESSAGE;
use crate::commands::RETRO_ENVIRONMENT_SET_MESSAGE_EXT;
use crate::commands::RETRO_ENVIRONMENT_SET_PIXEL_FORMAT;
use crate::environment::EnvView;
use crate::environment::MessageTarget;
use crate::environment::PayloadShape;
use crate::environment::PayloadView;
use crate::environment::Rotation;
use crate::environment::default_message;
use crate::environment::env_step;
use crate::environment::log_level_of;
use crate::environment::message_target_of;
use crate::environment::message_type_of;
use crate::environment::recognized_command;
use crate::environment::shape_of;

verus! {

/// A command id the dispatcher has no arm for is answered `false`, whatever
/// its payload, and the state does not move.
pub proof fn lemma_unknown_command_rejected(pre: EnvView, command: u32, p: PayloadView)
    requires
        !recognized_command(command),
    ensures
        env_step(pre, command, p) == (pre, false),
{
}

/// A null payload pointer on any command that requires a payload is answered
/// `false`, and the state does not move.
pub proof fn lemma_null_payload_rejected(pre: EnvView, command: u32)
    requires
        shape_of(command) != PayloadShape::NoPayload,
    ensures
        env_step(pre, command, PayloadView::Null) == (pre, false),
{
}

/// The rotation command maps the payload values `0`, `1`, `2`, `3` to the
/// four orientations in order and answers `true`; every other value is
/// answered `false` with the prior rotation (set or unset) kept.
pub proof fn lemma_rotation_mapping(pre: EnvView, v: u32)
    ensures
        v == 0 ==> env_step(pre, RETRO_ENVIRONMENT_SET_ROTATION, PayloadView::Value(v)) == (
            (EnvView { rotation: Some(Rotation::Upright), ..pre }),
            true,
        ),
        v == 1 ==> env_step(pre, RETRO_ENVIRONMENT_SET_ROTATION, PayloadView::Value(v)) == (
            (EnvView { rotation: Some(Rotation::RotateLeft), ..pre }),
            true,
        ),
        v == 2 ==> env_step(pre, RETRO_ENVIRONMENT_SET_ROTATION, PayloadView::Value(v)) == (
            (EnvView { rotation: Some(Rotation::UpsideDown), ..pre }),
            true,
        ),
        v == 3 ==> env_step(pre, RETRO_ENVIRONMENT_SET_ROTATION, PayloadView::Value(v)) == (
            (EnvView { rotation: Some(Rotation::RotateRight), ..pre }),
            true,
        ),
        v > 3 ==> env_step(pre, RETRO_ENVIRONMENT_SET_ROTATION, PayloadView::Value(v)) == (
            pre,
            false,
        ),
{
}

/// Posting a minimal message appends exactly one record — the text and
/// duration as given, everything else defaulted — to the end of the toast
/// queue, leaves every prior record in place, touches nothing else, and
/// answers `true`.
pub proof fn lemma_minimal_message_appends(pre: EnvView, msg: Seq<char>, frames: u32)
    ensures
        ({
            let (post, honored) = env_step(
                pre,
                RETRO_ENVIRONMENT_SET_MESSAGE,
                PayloadView::Message { msg, frames },
            );
            &&& honored
            &&& post == (EnvView {
                toast_messages: pre.toast_messages.push(default_message(msg, frames)),
                ..pre
            })
            &&& post.toast_messages.len() == pre.toast_messages.len() + 1
            &&& post.toast_messages.last() == default_message(msg, frames)
            &&& forall|i: int|
                0 <= i < pre.toast_messages.len() ==> post.toast_messages[i]
                    == pre.toast_messages[i]
        }),
{
}

/// An extended message that decodes but is addressed somewhere other than
/// the on-screen display does not grow the toast queue — it goes to the side
/// diagnostic channel — yet is still acknowledged with `true`.
pub proof fn lemma_non_osd_message_not_queued(
    pre: EnvView,
    msg: Seq<char>,
    duration: u32,
    priority: u32,
    level: u32,
    type_: u32,
    progress: i8,
    target: u32,
)
    requires
        log_level_of(level) is Some,
        message_type_of(type_) is Some,
        message_target_of(target) is Some,
        message_target_of(target) != Some(MessageTarget::Osd),
    ensures
        ({
            let (post, honored) = env_step(
                pre,
                RETRO_ENVIRONMENT_SET_MESSAGE_EXT,
                PayloadView::MessageExt { msg, duration, priority, level, type_, progress, target },
            );
            &&& honored
            &&& post.toast_messages == pre.toast_messages
            &&& post.diagnostics.len() == pre.diagnostics.len() + 1
        }),
{
}

/// Repeating a pixel-format call with the same payload yields the same final
/// state and the same answer as making it once.
pub proof fn lemma_pixel_format_idempotent(pre: EnvView, p: PayloadView)
    ensures
        ({
            let (once, first) = env_step(pre, RETRO_ENVIRONMENT_SET_PIXEL_FORMAT, p);
            let (twice, second) = env_step(once, RETRO_ENVIRONMENT_SET_PIXEL_FORMAT, p);
            twice == once && second == first
        }),
{
}

/// The toast queue is append-only and order-preserving: no call, whatever
/// its command and payload, removes, reorders or rewrites a queued record.
pub proof fn lemma_toasts_append_only(pre: EnvView, command: u32, p: PayloadView)
    ensures
        ({
            let post = env_step(pre, command, p).0;
            &&& post.toast_messages.len() >= pre.toast_messages.len()
            &&& forall|i: int|
                0 <= i < pre.toast_messages.len() ==> post.toast_messages[i]
                    == pre.toast_messages[i]
        }),
{
}

/// Only a recognized command can move the state: everything else leaves it
/// exactly as it was.
pub proof fn lemma_only_recognized_commands_mutate(pre: EnvView, command: u32, p: PayloadView)
    ensures
        !recognized_command(command) ==> env_step(pre, command, p).0 == pre,
{
}

} // verus!
