//! The environment-call dispatcher and the host state it reflects.
//!
//! A loaded core drives the host through one callback: a numeric command id
//! plus a payload whose shape is fixed by that id. The marshaling layer turns
//! the raw payload into an [`EnvPayload`] value (or [`EnvPayload::Null`] for a
//! null pointer); [`RetroEnvironment::handle_environment_call`] then decodes,
//! validates and applies it, and answers `true` exactly when the command was
//! honored. The whole transition is pinned down by the specification function
//! [`env_step`].

use vstd::prelude::*;

use crate::commands::RETRO_ENVIRONMENT_SET_ROTATION;
use crate::commands::RETRO_ENVIRONMENT_SET_MESSAGE;
use crate::commands::RETRO_ENVIRONMENT_SET_PERFORMANCE_LEVEL;
use crate::commands::RETRO_ENVIRONMENT_SET_PIXEL_FORMAT;
use crate::commands::RETRO_ENVIRONMENT_SET_INPUT_DESCRIPTORS;
use crate::commands::RETRO_ENVIRONMENT_SET_KEYBOARD_CALLBACK;
use crate::commands::RETRO_ENVIRONMENT_SET_DISK_CONTROL_INTERFACE;
use crate::commands::RETRO_ENVIRONMENT_SET_HW_RENDER;
use crate::commands::RETRO_ENVIRONMENT_SET_VARIABLES;
use crate::commands::RETRO_ENVIRONMENT_SET_SUPPORT_NO_GAME;
use crate::commands::RETRO_ENVIRONMENT_SET_FRAME_TIME_CALLBACK;
use crate::commands::RETRO_ENVIRONMENT_SET_AUDIO_CALLBACK;
use crate::commands::RETRO_ENVIRONMENT_GET_HW_RENDER_INTERFACE;
use crate::commands::RETRO_ENVIRONMENT_SET_SUPPORT_ACHIEVEMENTS;
use crate::commands::RETRO_ENVIRONMENT_SET_HW_RENDER_CONTEXT_NEGOTIATION_INTERFACE;
use crate::commands::RETRO_ENVIRONMENT_SET_HW_SHARED_CONTEXT;
use crate::commands::RETRO_ENVIRONMENT_SET_CORE_OPTIONS;
use crate::commands::RETRO_ENVIRONMENT_SET_CORE_OPTIONS_INTL;
use crate::commands::RETRO_ENVIRONMENT_SET_CORE_OPTIONS_DISPLAY;
use crate::commands::RETRO_ENVIRONMENT_GET_PREFERRED_HW_RENDER;
use crate::commands::RETRO_ENVIRONMENT_SET_DISK_CONTROL_EXT_INTERFACE;
use crate::commands::RETRO_ENVIRONMENT_SET_MESSAGE_EXT;
use crate::commands::RETRO_ENVIRONMENT_SET_CORE_OPTIONS_V2;
use crate::commands::RETRO_ENVIRONMENT_SET_CORE_OPTIONS_V2_INTL;
use crate::commands::RETRO_ENVIRONMENT_GET_HW_RENDER_CONTEXT_NEGOTIATION_INTERFACE_SUPPORT;

verus! {

/// Screen rotation requested by the core, in steps of 90 degrees
/// counter-clockwise.
#[derive(Clone, Copy, Debug, PartialEq, Eq, Structural)]
pub enum Rotation {
    Upright,
    RotateLeft,
    UpsideDown,
    RotateRight,
}

/// Framebuffer pixel layout announced by the core.
#[derive(Clone, Copy, Debug, PartialEq, Eq, Structural)]
pub enum PixelFormat {
    Xrgb1555,
    Xrgb8888,
    Rgb565,
}

/// Severity attached to a message record.
#[derive(Clone, Copy, Debug, PartialEq, Eq, Structural)]
pub enum LogLevel {
    Debug,
    Info,
    Warn,
    Error,
}

/// Presentation category of a message record.
#[derive(Clone, Copy, Debug, PartialEq, Eq, Structural)]
pub enum MessageType {
    Notification,
    NotificationAlt,
    Status,
    Progress,
}

/// Where an extended message asks to be routed.
#[derive(Clone, Copy, Debug, PartialEq, Eq, Structural)]
pub enum MessageTarget {
    All,
    Osd,
    Log,
}

/// A core-supplied callback reference, held as an opaque token.
///
/// The host records and hands these back to the marshaling layer but never
/// interprets them; the token is whatever cookie that layer chose for the
/// underlying foreign reference.
#[derive(Clone, Copy, Debug, PartialEq, Eq, Structural)]
pub struct CapabilityHandle {
    pub token: u64,
}

/// A user-facing message record, fully populated.
///
/// A minimal posting carries only text and duration; the remaining fields are
/// then defaulted (priority `0`, informational level, notification type,
/// progress `0`).
#[derive(Clone, Debug)]
pub struct RetroMessageExt {
    pub msg: String,
    pub duration: u32,
    pub priority: u32,
    pub level: LogLevel,
    pub type_: MessageType,
    pub progress: i8,
}

/// Mathematical image of a [`RetroMessageExt`].
#[verifier::ext_equal]
pub struct MessageView {
    pub msg: Seq<char>,
    pub duration: u32,
    pub priority: u32,
    pub level: LogLevel,
    pub type_: MessageType,
    pub progress: i8,
}

impl View for RetroMessageExt {
    type V = MessageView;

    open spec fn view(&self) -> MessageView {
        MessageView {
            msg: self.msg@,
            duration: self.duration,
            priority: self.priority,
            level: self.level,
            type_: self.type_,
            progress: self.progress,
        }
    }
}

/// A diagnostic emitted while handling a call, for an external presentation
/// collaborator to drain; diagnostics are not part of the reflected state a
/// core can observe.
#[derive(Clone, Debug)]
pub enum Diagnostic {
    /// The core announced the performance level it was designed for.
    PerformanceLevel(u32),
    /// An extended message addressed somewhere other than the on-screen
    /// display was diverted here instead of the toast queue.
    DivertedMessage(RetroMessageExt),
}

/// Mathematical image of a [`Diagnostic`].
#[verifier::ext_equal]
pub enum DiagnosticView {
    PerformanceLevel(u32),
    DivertedMessage(MessageView),
}

impl View for Diagnostic {
    type V = DiagnosticView;

    open spec fn view(&self) -> DiagnosticView {
        match self {
            Diagnostic::PerformanceLevel(level) => DiagnosticView::PerformanceLevel(*level),
            Diagnostic::DivertedMessage(record) => DiagnosticView::DivertedMessage(record@),
        }
    }
}

/// The payload of one environment call, already lifted out of the raw,
/// command-typed pointer by the marshaling layer.
///
/// `Null` stands for a null payload pointer. Every other variant is a
/// verbatim copy of the pointee the calling command declared; enumeration
/// fields stay as the raw numbers the core supplied, so that range checking
/// remains the dispatcher's, verified, job.
#[derive(Clone, Debug)]
pub enum EnvPayload {
    /// The core passed a null pointer.
    Null,
    /// A single 32-bit value (rotation request, pixel format, performance
    /// level).
    Value(u32),
    /// A single boolean flag.
    Flag(bool),
    /// A minimal message: text plus a duration in frames.
    Message { msg: String, frames: u32 },
    /// An extended message with every field explicit plus a routing target.
    MessageExt {
        msg: String,
        duration: u32,
        priority: u32,
        level: u32,
        type_: u32,
        progress: i8,
        target: u32,
    },
    /// A callback registration, reduced to an opaque handle.
    Callback(CapabilityHandle),
}

/// Mathematical image of an [`EnvPayload`].
#[verifier::ext_equal]
pub enum PayloadView {
    Null,
    Value(u32),
    Flag(bool),
    Message { msg: Seq<char>, frames: u32 },
    MessageExt {
        msg: Seq<char>,
        duration: u32,
        priority: u32,
        level: u32,
        type_: u32,
        progress: i8,
        target: u32,
    },
    Callback(CapabilityHandle),
}

impl View for EnvPayload {
    type V = PayloadView;

    open spec fn view(&self) -> PayloadView {
        match self {
            EnvPayload::Null => PayloadView::Null,
            EnvPayload::Value(v) => PayloadView::Value(*v),
            EnvPayload::Flag(b) => PayloadView::Flag(*b),
            EnvPayload::Message { msg, frames } => PayloadView::Message {
                msg: msg@,
                frames: *frames,
            },
            EnvPayload::MessageExt { msg, duration, priority, level, type_, progress, target } => {
                PayloadView::MessageExt {
                    msg: msg@,
                    duration: *duration,
                    priority: *priority,
                    level: *level,
                    type_: *type_,
                    progress: *progress,
                    target: *target,
                }
            },
            EnvPayload::Callback(handle) => PayloadView::Callback(*handle),
        }
    }
}

/// The payload shape each command declares: which [`EnvPayload`] variant the
/// marshaling layer must produce for it. `NoPayload` covers the commands
/// whose payload the host never reads (deferred, unsupported and unknown
/// ones).
#[derive(Clone, Copy, Debug, PartialEq, Eq, Structural)]
pub enum PayloadShape {
    NoPayload,
    Value,
    Flag,
    Message,
    MessageExt,
    Callback,
}

/// The shape of payload a command requires, per the external ABI.
pub open spec fn shape_of(command: u32) -> PayloadShape {
    if command == RETRO_ENVIRONMENT_SET_ROTATION
        || command == RETRO_ENVIRONMENT_SET_PIXEL_FORMAT
        || command == RETRO_ENVIRONMENT_SET_PERFORMANCE_LEVEL {
        PayloadShape::Value
    } else if command == RETRO_ENVIRONMENT_SET_SUPPORT_NO_GAME {
        PayloadShape::Flag
    } else if command == RETRO_ENVIRONMENT_SET_MESSAGE {
        PayloadShape::Message
    } else if command == RETRO_ENVIRONMENT_SET_MESSAGE_EXT {
        PayloadShape::MessageExt
    } else if command == RETRO_ENVIRONMENT_SET_AUDIO_CALLBACK
        || command == RETRO_ENVIRONMENT_SET_KEYBOARD_CALLBACK
        || command == RETRO_ENVIRONMENT_SET_DISK_CONTROL_INTERFACE
        || command == RETRO_ENVIRONMENT_SET_DISK_CONTROL_EXT_INTERFACE {
        PayloadShape::Callback
    } else {
        PayloadShape::NoPayload
    }
}

/// Exec twin of [`shape_of`], for the marshaling layer to consult before it
/// reads anything through the raw pointer.
pub fn payload_shape(command: u32) -> (r: PayloadShape)
    ensures
        r == shape_of(command),
{
    if command == RETRO_ENVIRONMENT_SET_ROTATION
        || command == RETRO_ENVIRONMENT_SET_PIXEL_FORMAT
        || command == RETRO_ENVIRONMENT_SET_PERFORMANCE_LEVEL {
        PayloadShape::Value
    } else if command == RETRO_ENVIRONMENT_SET_SUPPORT_NO_GAME {
        PayloadShape::Flag
    } else if command == RETRO_ENVIRONMENT_SET_MESSAGE {
        PayloadShape::Message
    } else if command == RETRO_ENVIRONMENT_SET_MESSAGE_EXT {
        PayloadShape::MessageExt
    } else if command == RETRO_ENVIRONMENT_SET_AUDIO_CALLBACK
        || command == RETRO_ENVIRONMENT_SET_KEYBOARD_CALLBACK
        || command == RETRO_ENVIRONMENT_SET_DISK_CONTROL_INTERFACE
        || command == RETRO_ENVIRONMENT_SET_DISK_CONTROL_EXT_INTERFACE {
        PayloadShape::Callback
    } else {
        PayloadShape::NoPayload
    }
}

/// What a numeric rotation request decodes to: the four-way enumeration for
/// `0..=3`, nothing otherwise.
pub open spec fn rotation_of(v: u32) -> Option<Rotation> {
    if v == 0 {
        Some(Rotation::Upright)
    } else if v == 1 {
        Some(Rotation::RotateLeft)
    } else if v == 2 {
        Some(Rotation::UpsideDown)
    } else if v == 3 {
        Some(Rotation::RotateRight)
    } else {
        None
    }
}

/// Exec twin of [`rotation_of`].
pub fn decode_rotation(v: u32) -> (r: Option<Rotation>)
    ensures
        r == rotation_of(v),
{
    if v == 0 {
        Some(Rotation::Upright)
    } else if v == 1 {
        Some(Rotation::RotateLeft)
    } else if v == 2 {
        Some(Rotation::UpsideDown)
    } else if v == 3 {
        Some(Rotation::RotateRight)
    } else {
        None
    }
}

/// What a numeric pixel-format announcement decodes to.
pub open spec fn pixel_format_of(v: u32) -> Option<PixelFormat> {
    if v == 0 {
        Some(PixelFormat::Xrgb1555)
    } else if v == 1 {
        Some(PixelFormat::Xrgb8888)
    } else if v == 2 {
        Some(PixelFormat::Rgb565)
    } else {
        None
    }
}

/// Exec twin of [`pixel_format_of`].
pub fn decode_pixel_format(v: u32) -> (r: Option<PixelFormat>)
    ensures
        r == pixel_format_of(v),
{
    if v == 0 {
        Some(PixelFormat::Xrgb1555)
    } else if v == 1 {
        Some(PixelFormat::Xrgb8888)
    } else if v == 2 {
        Some(PixelFormat::Rgb565)
    } else {
        None
    }
}

/// What a numeric log level decodes to.
pub open spec fn log_level_of(v: u32) -> Option<LogLevel> {
    if v == 0 {
        Some(LogLevel::Debug)
    } else if v == 1 {
        Some(LogLevel::Info)
    } else if v == 2 {
        Some(LogLevel::Warn)
    } else if v == 3 {
        Some(LogLevel::Error)
    } else {
        None
    }
}

/// Exec twin of [`log_level_of`].
pub fn decode_log_level(v: u32) -> (r: Option<LogLevel>)
    ensures
        r == log_level_of(v),
{
    if v == 0 {
        Some(LogLevel::Debug)
    } else if v == 1 {
        Some(LogLevel::Info)
    } else if v == 2 {
        Some(LogLevel::Warn)
    } else if v == 3 {
        Some(LogLevel::Error)
    } else {
        None
    }
}

/// What a numeric message type decodes to.
pub open spec fn message_type_of(v: u32) -> Option<MessageType> {
    if v == 0 {
        Some(MessageType::Notification)
    } else if v == 1 {
        Some(MessageType::NotificationAlt)
    } else if v == 2 {
        Some(MessageType::Status)
    } else if v == 3 {
        Some(MessageType::Progress)
    } else {
        None
    }
}

/// Exec twin of [`message_type_of`].
pub fn decode_message_type(v: u32) -> (r: Option<MessageType>)
    ensures
        r == message_type_of(v),
{
    if v == 0 {
        Some(MessageType::Notification)
    } else if v == 1 {
        Some(MessageType::NotificationAlt)
    } else if v == 2 {
        Some(MessageType::Status)
    } else if v == 3 {
        Some(MessageType::Progress)
    } else {
        None
    }
}

/// What a numeric message routing target decodes to.
pub open spec fn message_target_of(v: u32) -> Option<MessageTarget> {
    if v == 0 {
        Some(MessageTarget::All)
    } else if v == 1 {
        Some(MessageTarget::Osd)
    } else if v == 2 {
        Some(MessageTarget::Log)
    } else {
        None
    }
}

/// Exec twin of [`message_target_of`].
pub fn decode_message_target(v: u32) -> (r: Option<MessageTarget>)
    ensures
        r == message_target_of(v),
{
    if v == 0 {
        Some(MessageTarget::All)
    } else if v == 1 {
        Some(MessageTarget::Osd)
    } else if v == 2 {
        Some(MessageTarget::Log)
    } else {
        None
    }
}

/// The record a minimal message posting materializes: everything but text and
/// duration defaulted.
pub open spec fn default_message(msg: Seq<char>, frames: u32) -> MessageView {
    MessageView {
        msg: msg,
        duration: frames,
        priority: 0,
        level: LogLevel::Info,
        type_: MessageType::Notification,
        progress: 0,
    }
}

/// Mathematical image of the host state a loaded core session reflects into.
#[verifier::ext_equal]
pub struct EnvView {
    pub rotation: Option<Rotation>,
    pub pixel_format: Option<PixelFormat>,
    pub toast_messages: Seq<MessageView>,
    pub keyboard_callback: Option<CapabilityHandle>,
    pub disk_control_callback: Option<CapabilityHandle>,
    pub disk_control_ext_callback: Option<CapabilityHandle>,
    pub async_audio_callback: Option<CapabilityHandle>,
    pub support_no_game: bool,
    pub diagnostics: Seq<DiagnosticView>,
}

/// The state of a session that has not handled any call yet.
pub open spec fn empty_env() -> EnvView {
    EnvView {
        rotation: None,
        pixel_format: None,
        toast_messages: Seq::<MessageView>::empty(),
        keyboard_callback: None,
        disk_control_callback: None,
        disk_control_ext_callback: None,
        async_audio_callback: None,
        support_no_game: false,
        diagnostics: Seq::<DiagnosticView>::empty(),
    }
}

/// The commands the dispatcher decodes and applies (including the
/// side-effect-only performance-level notice).
pub open spec fn stateful_command(command: u32) -> bool {
    ||| command == RETRO_ENVIRONMENT_SET_ROTATION
    ||| command == RETRO_ENVIRONMENT_SET_PIXEL_FORMAT
    ||| command == RETRO_ENVIRONMENT_SET_MESSAGE
    ||| command == RETRO_ENVIRONMENT_SET_MESSAGE_EXT
    ||| command == RETRO_ENVIRONMENT_SET_PERFORMANCE_LEVEL
    ||| command == RETRO_ENVIRONMENT_SET_AUDIO_CALLBACK
    ||| command == RETRO_ENVIRONMENT_SET_KEYBOARD_CALLBACK
    ||| command == RETRO_ENVIRONMENT_SET_DISK_CONTROL_INTERFACE
    ||| command == RETRO_ENVIRONMENT_SET_DISK_CONTROL_EXT_INTERFACE
    ||| command == RETRO_ENVIRONMENT_SET_SUPPORT_NO_GAME
}

/// The core-option registration commands that are acknowledged without
/// parsing their payload (materializing option metadata is external scope).
pub open spec fn deferred_option_command(command: u32) -> bool {
    ||| command == RETRO_ENVIRONMENT_SET_VARIABLES
    ||| command == RETRO_ENVIRONMENT_SET_CORE_OPTIONS
    ||| command == RETRO_ENVIRONMENT_SET_CORE_OPTIONS_INTL
    ||| command == RETRO_ENVIRONMENT_SET_CORE_OPTIONS_V2
    ||| command == RETRO_ENVIRONMENT_SET_CORE_OPTIONS_V2_INTL
}

/// The commands this host knowingly answers `false` to, signalling the
/// capability is absent.
pub open spec fn unsupported_command(command: u32) -> bool {
    ||| command == RETRO_ENVIRONMENT_SET_HW_RENDER
    ||| command == RETRO_ENVIRONMENT_GET_HW_RENDER_INTERFACE
    ||| command == RETRO_ENVIRONMENT_SET_HW_RENDER_CONTEXT_NEGOTIATION_INTERFACE
    ||| command == RETRO_ENVIRONMENT_SET_HW_SHARED_CONTEXT
    ||| command == RETRO_ENVIRONMENT_GET_PREFERRED_HW_RENDER
    ||| command == RETRO_ENVIRONMENT_GET_HW_RENDER_CONTEXT_NEGOTIATION_INTERFACE_SUPPORT
    ||| command == RETRO_ENVIRONMENT_SET_FRAME_TIME_CALLBACK
    ||| command == RETRO_ENVIRONMENT_SET_INPUT_DESCRIPTORS
    ||| command == RETRO_ENVIRONMENT_SET_CORE_OPTIONS_DISPLAY
    ||| command == RETRO_ENVIRONMENT_SET_SUPPORT_ACHIEVEMENTS
}

/// Every command id the dispatcher has an arm for.
pub open spec fn recognized_command(command: u32) -> bool {
    stateful_command(command) || deferred_option_command(command) || unsupported_command(command)
}

/// The complete transition of one environment call: from the prior state, the
/// command id and the (already marshaled) payload to the next state and the
/// boolean handed back to the core.
///
/// A payload that is null, of the wrong variant for the command, or carrying
/// an out-of-range enumeration value leaves the state untouched and answers
/// `false`; so do unsupported and unknown commands. The deferred core-option
/// registrations answer `true` without reading their payload.
pub open spec fn env_step(pre: EnvView, command: u32, p: PayloadView) -> (EnvView, bool) {
    if command == RETRO_ENVIRONMENT_SET_ROTATION {
        match p {
            PayloadView::Value(v) => match rotation_of(v) {
                Some(rot) => (EnvView { rotation: Some(rot), ..pre }, true),
                None => (pre, false),
            },
            _ => (pre, false),
        }
    } else if command == RETRO_ENVIRONMENT_SET_PIXEL_FORMAT {
        match p {
            PayloadView::Value(v) => match pixel_format_of(v) {
                Some(format) => (EnvView { pixel_format: Some(format), ..pre }, true),
                None => (pre, false),
            },
            _ => (pre, false),
        }
    } else if command == RETRO_ENVIRONMENT_SET_MESSAGE {
        match p {
            PayloadView::Message { msg, frames } => (
                EnvView {
                    toast_messages: pre.toast_messages.push(default_message(msg, frames)),
                    ..pre
                },
                true,
            ),
            _ => (pre, false),
        }
    } else if command == RETRO_ENVIRONMENT_SET_MESSAGE_EXT {
        match p {
            PayloadView::MessageExt { msg, duration, priority, level, type_, progress, target } => {
                if log_level_of(level) is Some && message_type_of(type_) is Some
                    && message_target_of(target) is Some {
                    let record = MessageView {
                        msg: msg,
                        duration: duration,
                        priority: priority,
                        level: log_level_of(level)->Some_0,
                        type_: message_type_of(type_)->Some_0,
                        progress: progress,
                    };
                    if message_target_of(target) == Some(MessageTarget::Osd) {
                        (EnvView { toast_messages: pre.toast_messages.push(record), ..pre }, true)
                    } else {
                        (
                            EnvView {
                                diagnostics: pre.diagnostics.push(
                                    DiagnosticView::DivertedMessage(record),
                                ),
                                ..pre
                            },
                            true,
                        )
                    }
                } else {
                    (pre, false)
                }
            },
            _ => (pre, false),
        }
    } else if command == RETRO_ENVIRONMENT_SET_PERFORMANCE_LEVEL {
        match p {
            PayloadView::Value(v) => (
                EnvView {
                    diagnostics: pre.diagnostics.push(DiagnosticView::PerformanceLevel(v)),
                    ..pre
                },
                true,
            ),
            _ => (pre, false),
        }
    } else if command == RETRO_ENVIRONMENT_SET_AUDIO_CALLBACK {
        match p {
            PayloadView::Callback(handle) => (
                EnvView { async_audio_callback: Some(handle), ..pre },
                true,
            ),
            _ => (pre, false),
        }
    } else if command == RETRO_ENVIRONMENT_SET_KEYBOARD_CALLBACK {
        match p {
            PayloadView::Callback(handle) => (
                EnvView { keyboard_callback: Some(handle), ..pre },
                true,
            ),
            _ => (pre, false),
        }
    } else if command == RETRO_ENVIRONMENT_SET_DISK_CONTROL_INTERFACE {
        match p {
            PayloadView::Callback(handle) => (
                EnvView { disk_control_callback: Some(handle), ..pre },
                true,
            ),
            _ => (pre, false),
        }
    } else if command == RETRO_ENVIRONMENT_SET_DISK_CONTROL_EXT_INTERFACE {
        match p {
            PayloadView::Callback(handle) => (
                EnvView { disk_control_ext_callback: Some(handle), ..pre },
                true,
            ),
            _ => (pre, false),
        }
    } else if command == RETRO_ENVIRONMENT_SET_SUPPORT_NO_GAME {
        match p {
            PayloadView::Flag(flag) => (EnvView { support_no_game: flag, ..pre }, true),
            _ => (pre, false),
        }
    } else if deferred_option_command(command) {
        (pre, true)
    } else {
        (pre, false)
    }
}

/// Host state reflected from one loaded core session.
///
/// Only [`RetroEnvironment::handle_environment_call`] (and the two focused
/// entry points it delegates to) mutate a value of this type, and only in
/// response to a recognized command.
#[derive(Debug)]
pub struct RetroEnvironment {
    rotation: Option<Rotation>,
    pixel_format: Option<PixelFormat>,
    toast_messages: Vec<RetroMessageExt>,
    keyboard_callback: Option<CapabilityHandle>,
    disk_control_callback: Option<CapabilityHandle>,
    disk_control_ext_callback: Option<CapabilityHandle>,
    async_audio_callback: Option<CapabilityHandle>,
    support_no_game: bool,
    diagnostics: Vec<Diagnostic>,
}

impl View for RetroEnvironment {
    type V = EnvView;

    closed spec fn view(&self) -> EnvView {
        EnvView {
            rotation: self.rotation,
            pixel_format: self.pixel_format,
            toast_messages: self.toast_messages@.map_values(|m: RetroMessageExt| m@),
            keyboard_callback: self.keyboard_callback,
            disk_control_callback: self.disk_control_callback,
            disk_control_ext_callback: self.disk_control_ext_callback,
            async_audio_callback: self.async_audio_callback,
            support_no_game: self.support_no_game,
            diagnostics: self.diagnostics@.map_values(|d: Diagnostic| d@),
        }
    }
}

impl Default for RetroEnvironment {
    fn default() -> (r: RetroEnvironment)
        ensures
            r@ == empty_env(),
    {
        RetroEnvironment::new()
    }
}

impl RetroEnvironment {
    /// A fresh session state: everything unset, both queues empty.
    pub fn new() -> (r: RetroEnvironment)
        ensures
            r@ == empty_env(),
    {
        let r = RetroEnvironment {
            rotation: None,
            pixel_format: None,
            toast_messages: Vec::new(),
            keyboard_callback: None,
            disk_control_callback: None,
            disk_control_ext_callback: None,
            async_audio_callback: None,
            support_no_game: false,
            diagnostics: Vec::new(),
        };
        proof {
            assert(r@ =~= empty_env());
        }
        r
    }

    /// Handle one environment call: the single entry point a loaded core
    /// drives the host through. Returns `true` exactly when the command was
    /// honored; every rejection leaves the state untouched.
    pub fn handle_environment_call(&mut self, command: u32, payload: EnvPayload) -> (r: bool)
        ensures
            final(self)@ == env_step(old(self)@, command, payload@).0,
            r == env_step(old(self)@, command, payload@).1,
    {
        if command == RETRO_ENVIRONMENT_SET_ROTATION {
            match payload {
                EnvPayload::Value(v) => match decode_rotation(v) {
                    Some(rot) => self.set_rotation(rot),
                    None => false,
                },
                _ => false,
            }
        } else if command == RETRO_ENVIRONMENT_SET_PIXEL_FORMAT {
            match payload {
                EnvPayload::Value(v) => match decode_pixel_format(v) {
                    Some(format) => {
                        self.pixel_format = Some(format);
                        true
                    },
                    None => false,
                },
                _ => false,
            }
        } else if command == RETRO_ENVIRONMENT_SET_MESSAGE {
            match payload {
                EnvPayload::Message { msg, frames } => {
                    let record = RetroMessageExt {
                        msg: msg,
                        duration: frames,
                        priority: 0,
                        level: LogLevel::Info,
                        type_: MessageType::Notification,
                        progress: 0,
                    };
                    self.push_toasts(record)
                },
                _ => false,
            }
        } else if command == RETRO_ENVIRONMENT_SET_MESSAGE_EXT {
            match payload {
                EnvPayload::MessageExt { msg, duration, priority, level, type_, progress, target } => {
                    let decoded_level = decode_log_level(level);
                    let decoded_type = decode_message_type(type_);
                    let decoded_target = decode_message_target(target);
                    match (decoded_level, decoded_type, decoded_target) {
                        (Some(lv), Some(ty), Some(tg)) => {
                            let record = RetroMessageExt {
                                msg: msg,
                                duration: duration,
                                priority: priority,
                                level: lv,
                                type_: ty,
                                progress: progress,
                            };
                            if tg == MessageTarget::Osd {
                                self.push_toasts(record)
                            } else {
                                self.push_diagnostic(Diagnostic::DivertedMessage(record));
                                true
                            }
                        },
                        _ => false,
                    }
                },
                _ => false,
            }
        } else if command == RETRO_ENVIRONMENT_SET_PERFORMANCE_LEVEL {
            match payload {
                EnvPayload::Value(v) => {
                    self.push_diagnostic(Diagnostic::PerformanceLevel(v));
                    true
                },
                _ => false,
            }
        } else if command == RETRO_ENVIRONMENT_SET_AUDIO_CALLBACK {
            match payload {
                EnvPayload::Callback(handle) => {
                    self.async_audio_callback = Some(handle);
                    true
                },
                _ => false,
            }
        } else if command == RETRO_ENVIRONMENT_SET_KEYBOARD_CALLBACK {
            match payload {
                EnvPayload::Callback(handle) => {
                    self.keyboard_callback = Some(handle);
                    true
                },
                _ => false,
            }
        } else if command == RETRO_ENVIRONMENT_SET_DISK_CONTROL_INTERFACE {
            match payload {
                EnvPayload::Callback(handle) => {
                    self.disk_control_callback = Some(handle);
                    true
                },
                _ => false,
            }
        } else if command == RETRO_ENVIRONMENT_SET_DISK_CONTROL_EXT_INTERFACE {
            match payload {
                EnvPayload::Callback(handle) => {
                    self.disk_control_ext_callback = Some(handle);
                    true
                },
                _ => false,
            }
        } else if command == RETRO_ENVIRONMENT_SET_SUPPORT_NO_GAME {
            match payload {
                EnvPayload::Flag(flag) => {
                    self.support_no_game = flag;
                    true
                },
                _ => false,
            }
        } else if command == RETRO_ENVIRONMENT_SET_VARIABLES
            || command == RETRO_ENVIRONMENT_SET_CORE_OPTIONS
            || command == RETRO_ENVIRONMENT_SET_CORE_OPTIONS_INTL
            || command == RETRO_ENVIRONMENT_SET_CORE_OPTIONS_V2
            || command == RETRO_ENVIRONMENT_SET_CORE_OPTIONS_V2_INTL {
            true
        } else {
            false
        }
    }

    /// Record the rotation the core requested.
    pub fn set_rotation(&mut self, rot: Rotation) -> (r: bool)
        ensures
            final(self)@ == (EnvView { rotation: Some(rot), ..old(self)@ }),
            r,
    {
        self.rotation = Some(rot);
        true
    }

    /// Append one record to the toast queue; existing records keep their
    /// place.
    pub fn push_toasts(&mut self, msg_ext: RetroMessageExt) -> (r: bool)
        ensures
            final(self)@ == (EnvView {
                toast_messages: old(self)@.toast_messages.push(msg_ext@),
                ..old(self)@
            }),
            r,
    {
        let ghost prior = self@;
        let ghost record = msg_ext@;
        self.toast_messages.push(msg_ext);
        proof {
            assert(self@.toast_messages =~= prior.toast_messages.push(record));
            assert(self@ =~= (EnvView {
                toast_messages: prior.toast_messages.push(record),
                ..prior
            }));
        }
        true
    }

    /// Append one entry to the side diagnostic channel.
    fn push_diagnostic(&mut self, diagnostic: Diagnostic)
        ensures
            final(self)@ == (EnvView {
                diagnostics: old(self)@.diagnostics.push(diagnostic@),
                ..old(self)@
            }),
    {
        let ghost prior = self@;
        let ghost entry = diagnostic@;
        self.diagnostics.push(diagnostic);
        proof {
            assert(self@.diagnostics =~= prior.diagnostics.push(entry));
            assert(self@ =~= (EnvView { diagnostics: prior.diagnostics.push(entry), ..prior }));
        }
    }

    /// The rotation the core last requested, if any.
    pub fn rotation(&self) -> (r: Option<Rotation>)
        ensures
            r == self@.rotation,
    {
        self.rotation
    }

    /// The pixel format the core last announced, if any.
    pub fn pixel_format(&self) -> (r: Option<PixelFormat>)
        ensures
            r == self@.pixel_format,
    {
        self.pixel_format
    }

    /// Whether the core declared it can run without content.
    pub fn support_no_game(&self) -> (r: bool)
        ensures
            r == self@.support_no_game,
    {
        self.support_no_game
    }

    /// The keyboard callback the core last registered, if any.
    pub fn keyboard_callback(&self) -> (r: Option<CapabilityHandle>)
        ensures
            r == self@.keyboard_callback,
    {
        self.keyboard_callback
    }

    /// The disk-control callback the core last registered, if any.
    pub fn disk_control_callback(&self) -> (r: Option<CapabilityHandle>)
        ensures
            r == self@.disk_control_callback,
    {
        self.disk_control_callback
    }

    /// The extended disk-control callback the core last registered, if any.
    pub fn disk_control_ext_callback(&self) -> (r: Option<CapabilityHandle>)
        ensures
            r == self@.disk_control_ext_callback,
    {
        self.disk_control_ext_callback
    }

    /// The asynchronous audio callback the core last registered, if any.
    pub fn async_audio_callback(&self) -> (r: Option<CapabilityHandle>)
        ensures
            r == self@.async_audio_callback,
    {
        self.async_audio_callback
    }

    /// How many records the toast queue holds.
    pub fn toast_count(&self) -> (r: usize)
        ensures
            r == self@.toast_messages.len(),
    {
        self.toast_messages.len()
    }

    /// The toast record at `index` (oldest first).
    pub fn toast_at(&self, index: usize) -> (r: &RetroMessageExt)
        requires
            index < self@.toast_messages.len(),
        ensures
            r@ == self@.toast_messages[index as int],
    {
        &self.toast_messages[index]
    }

    /// How many entries the side diagnostic channel holds.
    pub fn diagnostic_count(&self) -> (r: usize)
        ensures
            r == self@.diagnostics.len(),
    {
        self.diagnostics.len()
    }

    /// The diagnostic entry at `index` (oldest first).
    pub fn diagnostic_at(&self, index: usize) -> (r: &Diagnostic)
        requires
            index < self@.diagnostics.len(),
        ensures
            r@ == self@.diagnostics[index as int],
    {
        &self.diagnostics[index]
    }
}

} // verus!
