use libretro_frontend::commands::RETRO_ENVIRONMENT_GET_HW_RENDER_INTERFACE;
use libretro_frontend::commands::RETRO_ENVIRONMENT_SET_AUDIO_CALLBACK;
use libretro_frontend::commands::RETRO_ENVIRONMENT_SET_CORE_OPTIONS;
use libretro_frontend::commands::RETRO_ENVIRONMENT_SET_CORE_OPTIONS_DISPLAY;
use libretro_frontend::commands::RETRO_ENVIRONMENT_SET_CORE_OPTIONS_INTL;
use libretro_frontend::commands::RETRO_ENVIRONMENT_SET_CORE_OPTIONS_V2;
use libretro_frontend::commands::RETRO_ENVIRONMENT_SET_CORE_OPTIONS_V2_INTL;
use libretro_frontend::commands::RETRO_ENVIRONMENT_SET_DISK_CONTROL_EXT_INTERFACE;
use libretro_frontend::commands::RETRO_ENVIRONMENT_SET_DISK_CONTROL_INTERFACE;
use libretro_frontend::commands::RETRO_ENVIRONMENT_SET_FRAME_TIME_CALLBACK;
use libretro_frontend::commands::RETRO_ENVIRONMENT_SET_HW_RENDER;
use libretro_frontend::commands::RETRO_ENVIRONMENT_SET_INPUT_DESCRIPTORS;
use libretro_frontend::commands::RETRO_ENVIRONMENT_SET_KEYBOARD_CALLBACK;
use libretro_frontend::commands::RETRO_ENVIRONMENT_SET_MESSAGE;
use libretro_frontend::commands::RETRO_ENVIRONMENT_SET_MESSAGE_EXT;
use libretro_frontend::commands::RETRO_ENVIRONMENT_SET_PERFORMANCE_LEVEL;
use libretro_frontend::commands::RETRO_ENVIRONMENT_SET_PIXEL_FORMAT;
use libretro_frontend::commands::RETRO_ENVIRONMENT_SET_ROTATION;
use libretro_frontend::commands::RETRO_ENVIRONMENT_SET_SUPPORT_ACHIEVEMENTS;
use libretro_frontend::commands::RETRO_ENVIRONMENT_SET_SUPPORT_NO_GAME;
use libretro_frontend::commands::RETRO_ENVIRONMENT_SET_VARIABLES;
use libretro_frontend::environment::CapabilityHandle;
use libretro_frontend::environment::Diagnostic;
use libretro_frontend::environment::EnvPayload;
use libretro_frontend::environment::LogLevel;
use libretro_frontend::environment::MessageType;
use libretro_frontend::environment::PayloadShape;
use libretro_frontend::environment::PixelFormat;
use libretro_frontend::environment::RetroEnvironment;
use libretro_frontend::environment::Rotation;
use libretro_frontend::environment::payload_shape;

fn fresh() -> RetroEnvironment {
    RetroEnvironment::new()
}

fn assert_untouched(env: &RetroEnvironment) {
    assert_eq!(env.rotation(), None);
    assert_eq!(env.pixel_format(), None);
    assert_eq!(env.toast_count(), 0);
    assert_eq!(env.keyboard_callback(), None);
    assert_eq!(env.disk_control_callback(), None);
    assert_eq!(env.disk_control_ext_callback(), None);
    assert_eq!(env.async_audio_callback(), None);
    assert!(!env.support_no_game());
    assert_eq!(env.diagnostic_count(), 0);
}

#[test]
fn fresh_state_is_empty() {
    let env = fresh();
    assert_untouched(&env);
    let defaulted = RetroEnvironment::default();
    assert_untouched(&defaulted);
}

#[test]
fn unknown_command_is_rejected_and_state_kept() {
    let mut env = fresh();
    assert!(!env.handle_environment_call(9999, EnvPayload::Null));
    assert!(!env.handle_environment_call(0, EnvPayload::Null));
    assert!(!env.handle_environment_call(u32::MAX, EnvPayload::Null));
    assert_untouched(&env);
}

#[test]
fn unsupported_commands_answer_false() {
    let mut env = fresh();
    for command in [
        RETRO_ENVIRONMENT_SET_HW_RENDER,
        RETRO_ENVIRONMENT_GET_HW_RENDER_INTERFACE,
        RETRO_ENVIRONMENT_SET_FRAME_TIME_CALLBACK,
        RETRO_ENVIRONMENT_SET_INPUT_DESCRIPTORS,
        RETRO_ENVIRONMENT_SET_CORE_OPTIONS_DISPLAY,
        RETRO_ENVIRONMENT_SET_SUPPORT_ACHIEVEMENTS,
    ] {
        assert!(!env.handle_environment_call(command, EnvPayload::Null));
    }
    assert_untouched(&env);
}

#[test]
fn null_payload_is_rejected_and_state_kept() {
    let mut env = fresh();
    for command in [
        RETRO_ENVIRONMENT_SET_ROTATION,
        RETRO_ENVIRONMENT_SET_PIXEL_FORMAT,
        RETRO_ENVIRONMENT_SET_PERFORMANCE_LEVEL,
        RETRO_ENVIRONMENT_SET_MESSAGE,
        RETRO_ENVIRONMENT_SET_MESSAGE_EXT,
        RETRO_ENVIRONMENT_SET_AUDIO_CALLBACK,
        RETRO_ENVIRONMENT_SET_KEYBOARD_CALLBACK,
        RETRO_ENVIRONMENT_SET_DISK_CONTROL_INTERFACE,
        RETRO_ENVIRONMENT_SET_DISK_CONTROL_EXT_INTERFACE,
        RETRO_ENVIRONMENT_SET_SUPPORT_NO_GAME,
    ] {
        assert!(!env.handle_environment_call(command, EnvPayload::Null));
    }
    assert_untouched(&env);
}

#[test]
fn wrong_payload_variant_is_rejected() {
    let mut env = fresh();
    assert!(!env.handle_environment_call(RETRO_ENVIRONMENT_SET_ROTATION, EnvPayload::Flag(true)));
    assert!(!env.handle_environment_call(
        RETRO_ENVIRONMENT_SET_SUPPORT_NO_GAME,
        EnvPayload::Value(1)
    ));
    assert_untouched(&env);
}

#[test]
fn rotation_values_map_to_orientations() {
    let cases = [
        (0, Rotation::Upright),
        (1, Rotation::RotateLeft),
        (2, Rotation::UpsideDown),
        (3, Rotation::RotateRight),
    ];
    for (value, expected) in cases {
        let mut env = fresh();
        assert!(env.handle_environment_call(RETRO_ENVIRONMENT_SET_ROTATION, EnvPayload::Value(value)));
        assert_eq!(env.rotation(), Some(expected));
    }
}

#[test]
fn invalid_rotation_value_keeps_prior_rotation() {
    let mut env = fresh();
    assert!(!env.handle_environment_call(RETRO_ENVIRONMENT_SET_ROTATION, EnvPayload::Value(4)));
    assert_eq!(env.rotation(), None);
    assert!(env.handle_environment_call(RETRO_ENVIRONMENT_SET_ROTATION, EnvPayload::Value(1)));
    assert!(!env.handle_environment_call(RETRO_ENVIRONMENT_SET_ROTATION, EnvPayload::Value(u32::MAX)));
    assert_eq!(env.rotation(), Some(Rotation::RotateLeft));
}

#[test]
fn pixel_format_values_map_and_invalid_is_rejected() {
    let cases = [
        (0, PixelFormat::Xrgb1555),
        (1, PixelFormat::Xrgb8888),
        (2, PixelFormat::Rgb565),
    ];
    for (value, expected) in cases {
        let mut env = fresh();
        assert!(env.handle_environment_call(RETRO_ENVIRONMENT_SET_PIXEL_FORMAT, EnvPayload::Value(value)));
        assert_eq!(env.pixel_format(), Some(expected));
    }
    let mut env = fresh();
    assert!(!env.handle_environment_call(RETRO_ENVIRONMENT_SET_PIXEL_FORMAT, EnvPayload::Value(3)));
    assert_eq!(env.pixel_format(), None);
}

#[test]
fn pixel_format_is_idempotent_and_last_write_wins() {
    let mut once = fresh();
    assert!(once.handle_environment_call(RETRO_ENVIRONMENT_SET_PIXEL_FORMAT, EnvPayload::Value(2)));
    let mut twice = fresh();
    assert!(twice.handle_environment_call(RETRO_ENVIRONMENT_SET_PIXEL_FORMAT, EnvPayload::Value(2)));
    assert!(twice.handle_environment_call(RETRO_ENVIRONMENT_SET_PIXEL_FORMAT, EnvPayload::Value(2)));
    assert_eq!(once.pixel_format(), twice.pixel_format());
    assert_eq!(once.toast_count(), twice.toast_count());
    assert_eq!(once.diagnostic_count(), twice.diagnostic_count());

    assert!(twice.handle_environment_call(RETRO_ENVIRONMENT_SET_PIXEL_FORMAT, EnvPayload::Value(0)));
    assert_eq!(twice.pixel_format(), Some(PixelFormat::Xrgb1555));
}

#[test]
fn minimal_message_appends_one_defaulted_record() {
    let mut env = fresh();
    assert!(env.handle_environment_call(
        RETRO_ENVIRONMENT_SET_MESSAGE,
        EnvPayload::Message { msg: String::from("Saved"), frames: 60 }
    ));
    assert_eq!(env.toast_count(), 1);
    let record = env.toast_at(0);
    assert_eq!(record.msg, "Saved");
    assert_eq!(record.duration, 60);
    assert_eq!(record.priority, 0);
    assert_eq!(record.level, LogLevel::Info);
    assert_eq!(record.type_, MessageType::Notification);
    assert_eq!(record.progress, 0);
}

#[test]
fn toast_queue_preserves_order_of_prior_entries() {
    let mut env = fresh();
    assert!(env.handle_environment_call(
        RETRO_ENVIRONMENT_SET_MESSAGE,
        EnvPayload::Message { msg: String::from("Saved"), frames: 60 }
    ));
    assert!(env.handle_environment_call(
        RETRO_ENVIRONMENT_SET_MESSAGE,
        EnvPayload::Message { msg: String::from("Loaded"), frames: 30 }
    ));
    assert_eq!(env.toast_count(), 2);
    assert_eq!(env.toast_at(0).msg, "Saved");
    assert_eq!(env.toast_at(0).duration, 60);
    assert_eq!(env.toast_at(1).msg, "Loaded");
    assert_eq!(env.toast_at(1).duration, 30);
}

#[test]
fn extended_message_to_osd_is_queued() {
    let mut env = fresh();
    assert!(env.handle_environment_call(
        RETRO_ENVIRONMENT_SET_MESSAGE_EXT,
        EnvPayload::MessageExt {
            msg: String::from("Rewinding"),
            duration: 120,
            priority: 3,
            level: 2,
            type_: 2,
            progress: -1,
            target: 1,
        }
    ));
    assert_eq!(env.toast_count(), 1);
    assert_eq!(env.diagnostic_count(), 0);
    let record = env.toast_at(0);
    assert_eq!(record.msg, "Rewinding");
    assert_eq!(record.duration, 120);
    assert_eq!(record.priority, 3);
    assert_eq!(record.level, LogLevel::Warn);
    assert_eq!(record.type_, MessageType::Status);
    assert_eq!(record.progress, -1);
}

#[test]
fn extended_message_off_osd_is_diverted_but_honored() {
    for target in [0, 2] {
        let mut env = fresh();
        assert!(env.handle_environment_call(
            RETRO_ENVIRONMENT_SET_MESSAGE_EXT,
            EnvPayload::MessageExt {
                msg: String::from("Background note"),
                duration: 45,
                priority: 1,
                level: 1,
                type_: 0,
                progress: 0,
                target,
            }
        ));
        assert_eq!(env.toast_count(), 0);
        assert_eq!(env.diagnostic_count(), 1);
        match env.diagnostic_at(0) {
            Diagnostic::DivertedMessage(record) => {
                assert_eq!(record.msg, "Background note");
                assert_eq!(record.duration, 45);
            }
            other => panic!("unexpected diagnostic {:?}", other),
        }
    }
}

#[test]
fn extended_message_with_out_of_range_fields_is_rejected() {
    let mut env = fresh();
    for (level, type_, target) in [(7, 0, 1), (1, 9, 1), (1, 0, 3)] {
        assert!(!env.handle_environment_call(
            RETRO_ENVIRONMENT_SET_MESSAGE_EXT,
            EnvPayload::MessageExt {
                msg: String::from("bad"),
                duration: 1,
                priority: 0,
                level,
                type_,
                progress: 0,
                target,
            }
        ));
    }
    assert_untouched(&env);
}

#[test]
fn performance_level_is_emitted_as_diagnostic() {
    let mut env = fresh();
    assert!(env.handle_environment_call(RETRO_ENVIRONMENT_SET_PERFORMANCE_LEVEL, EnvPayload::Value(8)));
    assert_eq!(env.toast_count(), 0);
    assert_eq!(env.diagnostic_count(), 1);
    assert!(matches!(env.diagnostic_at(0), Diagnostic::PerformanceLevel(8)));
}

#[test]
fn callback_registrations_record_latest_handle() {
    let mut env = fresh();
    assert!(env.handle_environment_call(
        RETRO_ENVIRONMENT_SET_KEYBOARD_CALLBACK,
        EnvPayload::Callback(CapabilityHandle { token: 11 })
    ));
    assert!(env.handle_environment_call(
        RETRO_ENVIRONMENT_SET_DISK_CONTROL_INTERFACE,
        EnvPayload::Callback(CapabilityHandle { token: 22 })
    ));
    assert!(env.handle_environment_call(
        RETRO_ENVIRONMENT_SET_DISK_CONTROL_EXT_INTERFACE,
        EnvPayload::Callback(CapabilityHandle { token: 33 })
    ));
    assert!(env.handle_environment_call(
        RETRO_ENVIRONMENT_SET_AUDIO_CALLBACK,
        EnvPayload::Callback(CapabilityHandle { token: 44 })
    ));
    assert_eq!(env.keyboard_callback(), Some(CapabilityHandle { token: 11 }));
    assert_eq!(env.disk_control_callback(), Some(CapabilityHandle { token: 22 }));
    assert_eq!(env.disk_control_ext_callback(), Some(CapabilityHandle { token: 33 }));
    assert_eq!(env.async_audio_callback(), Some(CapabilityHandle { token: 44 }));

    assert!(env.handle_environment_call(
        RETRO_ENVIRONMENT_SET_KEYBOARD_CALLBACK,
        EnvPayload::Callback(CapabilityHandle { token: 55 })
    ));
    assert_eq!(env.keyboard_callback(), Some(CapabilityHandle { token: 55 }));
}

#[test]
fn support_no_game_is_last_write_wins() {
    let mut env = fresh();
    assert!(env.handle_environment_call(RETRO_ENVIRONMENT_SET_SUPPORT_NO_GAME, EnvPayload::Flag(true)));
    assert!(env.support_no_game());
    assert!(env.handle_environment_call(RETRO_ENVIRONMENT_SET_SUPPORT_NO_GAME, EnvPayload::Flag(false)));
    assert!(!env.support_no_game());
}

#[test]
fn deferred_option_commands_are_acknowledged_without_effect() {
    let mut env = fresh();
    for command in [
        RETRO_ENVIRONMENT_SET_VARIABLES,
        RETRO_ENVIRONMENT_SET_CORE_OPTIONS,
        RETRO_ENVIRONMENT_SET_CORE_OPTIONS_INTL,
        RETRO_ENVIRONMENT_SET_CORE_OPTIONS_V2,
        RETRO_ENVIRONMENT_SET_CORE_OPTIONS_V2_INTL,
    ] {
        assert!(env.handle_environment_call(command, EnvPayload::Null));
    }
    assert_untouched(&env);
}

#[test]
fn payload_shapes_match_command_declarations() {
    assert_eq!(payload_shape(RETRO_ENVIRONMENT_SET_ROTATION), PayloadShape::Value);
    assert_eq!(payload_shape(RETRO_ENVIRONMENT_SET_PIXEL_FORMAT), PayloadShape::Value);
    assert_eq!(payload_shape(RETRO_ENVIRONMENT_SET_PERFORMANCE_LEVEL), PayloadShape::Value);
    assert_eq!(payload_shape(RETRO_ENVIRONMENT_SET_SUPPORT_NO_GAME), PayloadShape::Flag);
    assert_eq!(payload_shape(RETRO_ENVIRONMENT_SET_MESSAGE), PayloadShape::Message);
    assert_eq!(payload_shape(RETRO_ENVIRONMENT_SET_MESSAGE_EXT), PayloadShape::MessageExt);
    assert_eq!(payload_shape(RETRO_ENVIRONMENT_SET_KEYBOARD_CALLBACK), PayloadShape::Callback);
    assert_eq!(payload_shape(RETRO_ENVIRONMENT_SET_AUDIO_CALLBACK), PayloadShape::Callback);
    assert_eq!(payload_shape(RETRO_ENVIRONMENT_SET_VARIABLES), PayloadShape::NoPayload);
    assert_eq!(payload_shape(RETRO_ENVIRONMENT_SET_HW_RENDER), PayloadShape::NoPayload);
    assert_eq!(payload_shape(9999), PayloadShape::NoPayload);
}

#[test]
fn direct_entry_points_mirror_dispatch() {
    let mut env = fresh();
    assert!(env.set_rotation(Rotation::RotateRight));
    assert_eq!(env.rotation(), Some(Rotation::RotateRight));
    let record = libretro_frontend::environment::RetroMessageExt {
        msg: String::from("direct"),
        duration: 10,
        priority: 2,
        level: LogLevel::Error,
        type_: MessageType::Progress,
        progress: 50,
    };
    assert!(env.push_toasts(record));
    assert_eq!(env.toast_count(), 1);
    assert_eq!(env.toast_at(0).msg, "direct");
    assert_eq!(env.toast_at(0).level, LogLevel::Error);
}
