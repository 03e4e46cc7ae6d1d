use mpv_wallpaper::error::WpError;
use mpv_wallpaper::geometry::{Placement, Rect};
use mpv_wallpaper::handles::WindowHandle;
use mpv_wallpaper::player_args::{decimal_u8, mpv_args};
use mpv_wallpaper::protocol::{
    activation_sequence, icon_view_class, player_window_class, shell_window_class, worker_class,
    CONTAINER_ACTIVATION_MESSAGE,
};

#[test]
fn default_configuration_builds_the_full_argument_list() {
    let args = mpv_args("video.mp4".to_string(), None, None, None);
    assert_eq!(
        args,
        vec![
            "--player-operation-mode=pseudo-gui".to_string(),
            "--force-window=yes".to_string(),
            "--fs".to_string(),
            "--terminal=no".to_string(),
            "--no-audio".to_string(),
            "--loop-playlist=inf".to_string(),
            "--image-display-duration=5".to_string(),
            "video.mp4".to_string(),
        ]
    );
}

#[test]
fn audio_on_drops_the_no_audio_argument() {
    let args = mpv_args("a.webm".to_string(), Some(true), None, None);
    assert!(!args.contains(&"--no-audio".to_string()));
    assert!(args.contains(&"--loop-playlist=inf".to_string()));
}

#[test]
fn audio_explicitly_off_keeps_the_no_audio_argument() {
    let args = mpv_args("a.webm".to_string(), Some(false), None, None);
    assert!(args.contains(&"--no-audio".to_string()));
}

#[test]
fn loop_off_drops_the_loop_argument() {
    let args = mpv_args("a.webm".to_string(), None, Some(false), None);
    assert!(!args.contains(&"--loop-playlist=inf".to_string()));
}

#[test]
fn duration_is_rendered_in_decimal() {
    let args = mpv_args("pic.png".to_string(), None, None, Some(42));
    assert!(args.contains(&"--image-display-duration=42".to_string()));
}

#[test]
fn media_path_is_always_the_final_argument() {
    let args = mpv_args("some wallpaper.gif".to_string(), Some(true), Some(false), Some(1));
    assert_eq!(args.last().unwrap(), "some wallpaper.gif");
}

#[test]
fn decimal_rendering_of_byte_values() {
    assert_eq!(decimal_u8(0), "0");
    assert_eq!(decimal_u8(5), "5");
    assert_eq!(decimal_u8(9), "9");
    assert_eq!(decimal_u8(10), "10");
    assert_eq!(decimal_u8(99), "99");
    assert_eq!(decimal_u8(100), "100");
    assert_eq!(decimal_u8(200), "200");
    assert_eq!(decimal_u8(255), "255");
}

#[test]
fn placement_converts_corners_to_width_and_height() {
    let rect = Rect::new(100, 100, 900, 700);
    let p = rect.to_placement();
    assert_eq!(
        p,
        Placement {
            x: 100,
            y: 100,
            width: 800,
            height: 600
        }
    );
}

#[test]
fn placement_of_a_monitor_rooted_at_the_origin() {
    let rect = Rect::new(0, 0, 1920, 1080);
    let p = rect.to_placement();
    assert_eq!(
        p,
        Placement {
            x: 0,
            y: 0,
            width: 1920,
            height: 1080
        }
    );
}

#[test]
fn placement_of_a_negative_coordinate_monitor() {
    let rect = Rect::new(-1920, -200, 0, 880);
    let p = rect.to_placement();
    assert_eq!(
        p,
        Placement {
            x: -1920,
            y: -200,
            width: 1920,
            height: 1080
        }
    );
}

#[test]
fn top_left_reads_x_from_left_and_y_from_top() {
    let rect = Rect::new(100, 250, 900, 700);
    let p = rect.top_left();
    assert_eq!(p.x, 100);
    assert_eq!(p.y, 250);
}

#[test]
fn activation_sequence_is_two_messages_payload_zero_then_one() {
    let shell = WindowHandle::from_raw(1234);
    let msgs = activation_sequence(shell);
    assert_eq!(msgs.len(), 2);
    assert_eq!(msgs[0].target, shell);
    assert_eq!(msgs[0].code, CONTAINER_ACTIVATION_MESSAGE);
    assert_eq!(msgs[0].code, 0x052C);
    assert_eq!(msgs[0].wparam, 0);
    assert_eq!(msgs[0].lparam, 0);
    assert_eq!(msgs[1].target, shell);
    assert_eq!(msgs[1].code, 0x052C);
    assert_eq!(msgs[1].wparam, 0);
    assert_eq!(msgs[1].lparam, 1);
}

#[test]
fn well_known_class_names() {
    assert_eq!(player_window_class(), "mpv");
    assert_eq!(shell_window_class(), "Progman");
    assert_eq!(icon_view_class(), "SHELLDLL_DefView");
    assert_eq!(worker_class(), "WorkerW");
}

#[test]
fn window_handle_validity_is_nonzero() {
    assert!(!WindowHandle::null().is_valid());
    assert!(!WindowHandle::from_raw(0).is_valid());
    assert!(WindowHandle::from_raw(1).is_valid());
    assert!(WindowHandle::from_raw(-5).is_valid());
}

#[test]
fn error_descriptions_name_each_failure() {
    assert_eq!(
        WpError::NotFound.describe(),
        "a required window never appeared"
    );
    assert_eq!(
        WpError::StaleWindow.describe(),
        "a window handle became invalid"
    );
    assert_eq!(
        WpError::PlacementFailed.describe(),
        "the window could not be moved or resized"
    );
    assert_eq!(
        WpError::ReparentFailed.describe(),
        "the window could not be reparented"
    );
}
