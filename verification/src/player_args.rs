//! The argument list handed to the external media player: a fixed prefix
//! that asks for a borderless pseudo-window, forced window creation,
//! fullscreen and no terminal, then the audio, loop and image-duration
//! options threaded through from configuration, then the media path.

use vstd::prelude::*;

verus! {

/// The digit character of a value below ten.
pub open spec fn dec_digit(d: nat) -> char {
    if d == 0 {
        '0'
    } else if d == 1 {
        '1'
    } else if d == 2 {
        '2'
    } else if d == 3 {
        '3'
    } else if d == 4 {
        '4'
    } else if d == 5 {
        '5'
    } else if d == 6 {
        '6'
    } else if d == 7 {
        '7'
    } else if d == 8 {
        '8'
    } else {
        '9'
    }
}

/// The decimal digits of a byte value, most significant first, without
/// leading zeroes.
pub open spec fn dec_of_u8(n: u8) -> Seq<char> {
    if n < 10 {
        seq![dec_digit(n as nat)]
    } else if n < 100 {
        seq![dec_digit((n / 10) as nat), dec_digit((n % 10) as nat)]
    } else {
        seq![
            dec_digit((n / 100) as nat),
            dec_digit(((n / 10) % 10) as nat),
            dec_digit((n % 10) as nat),
        ]
    }
}

/// The one-character string of a digit.
fn digit_str(d: u8) -> (s: &'static str)
    requires
        d < 10,
    ensures
        s@ == seq![dec_digit(d as nat)],
{
    proof {
        reveal_strlit("0");
        reveal_strlit("1");
        reveal_strlit("2");
        reveal_strlit("3");
        reveal_strlit("4");
        reveal_strlit("5");
        reveal_strlit("6");
        reveal_strlit("7");
        reveal_strlit("8");
        reveal_strlit("9");
    }
    let s: &'static str = if d == 0 {
        "0"
    } else if d == 1 {
        "1"
    } else if d == 2 {
        "2"
    } else if d == 3 {
        "3"
    } else if d == 4 {
        "4"
    } else if d == 5 {
        "5"
    } else if d == 6 {
        "6"
    } else if d == 7 {
        "7"
    } else if d == 8 {
        "8"
    } else {
        "9"
    };
    proof {
        assert(s@ =~= seq![dec_digit(d as nat)]);
    }
    s
}

/// Render a byte value in decimal.
pub fn decimal_u8(n: u8) -> (s: String)
    ensures
        s@ == dec_of_u8(n),
{
    if n < 10 {
        let s = String::from_str(digit_str(n));
        proof {
            assert(s@ =~= dec_of_u8(n));
        }
        s
    } else if n < 100 {
        let mut s = String::from_str(digit_str(n / 10));
        s.append(digit_str(n % 10));
        proof {
            assert(s@ =~= dec_of_u8(n));
        }
        s
    } else {
        let mut s = String::from_str(digit_str(n / 100));
        s.append(digit_str((n / 10) % 10));
        s.append(digit_str(n % 10));
        proof {
            assert(s@ =~= dec_of_u8(n));
        }
        s
    }
}

/// The image display duration actually used: the configured seconds, or
/// five when none were given.
pub open spec fn spec_duration_value(duration: Option<u8>) -> u8 {
    match duration {
        Some(t) => t,
        None => 5,
    }
}

/// The fixed prefix of every player invocation.
pub open spec fn base_args() -> Seq<Seq<char>> {
    seq![
        "--player-operation-mode=pseudo-gui"@,
        "--force-window=yes"@,
        "--fs"@,
        "--terminal=no"@,
    ]
}

/// The audio arguments: sound is off unless it was asked for.
pub open spec fn audio_args(audio: Option<bool>) -> Seq<Seq<char>> {
    if audio == Some(true) {
        seq![]
    } else {
        seq!["--no-audio"@]
    }
}

/// The loop arguments: the playlist loops forever unless looping was
/// switched off.
pub open spec fn loop_args(loop_playlist: Option<bool>) -> Seq<Seq<char>> {
    if loop_playlist == Some(false) {
        seq![]
    } else {
        seq!["--loop-playlist=inf"@]
    }
}

/// The image-display-duration argument for a given configuration.
pub open spec fn duration_arg_view(duration: Option<u8>) -> Seq<char> {
    "--image-display-duration="@ + dec_of_u8(spec_duration_value(duration))
}

/// Every argument of a player invocation, in order: the fixed prefix, the
/// audio and loop options, the image duration, and the media path last.
pub open spec fn mpv_args_spec(
    wallpaper: Seq<char>,
    audio: Option<bool>,
    loop_playlist: Option<bool>,
    duration: Option<u8>,
) -> Seq<Seq<char>> {
    base_args() + audio_args(audio) + loop_args(loop_playlist) + seq![duration_arg_view(duration)]
        + seq![wallpaper]
}

/// Build the player's argument list from the configuration values: the
/// wallpaper path, whether audio plays, whether the playlist loops, and how
/// long a still image is shown.
pub fn mpv_args(
    wallpaper: String,
    audio: Option<bool>,
    loop_playlist: Option<bool>,
    duration: Option<u8>,
) -> (args: Vec<String>)
    ensures
        (args@.map_values(|s: String| s@)) == mpv_args_spec(
            wallpaper@,
            audio,
            loop_playlist,
            duration,
        ),
{
    let ghost wallpaper_view = wallpaper@;
    let mut args: Vec<String> = Vec::new();
    args.push(String::from_str("--player-operation-mode=pseudo-gui"));
    args.push(String::from_str("--force-window=yes"));
    args.push(String::from_str("--fs"));
    args.push(String::from_str("--terminal=no"));
    let audio_on = match audio {
        Some(b) => b,
        None => false,
    };
    if !audio_on {
        args.push(String::from_str("--no-audio"));
    }
    let loop_on = match loop_playlist {
        Some(b) => b,
        None => true,
    };
    if loop_on {
        args.push(String::from_str("--loop-playlist=inf"));
    }
    let seconds = match duration {
        Some(t) => t,
        None => 5,
    };
    let mut duration_arg = String::from_str("--image-display-duration=");
    duration_arg.append(decimal_u8(seconds).as_str());
    args.push(duration_arg);
    args.push(wallpaper);
    proof {
        assert((args@.map_values(|s: String| s@)) =~~= mpv_args_spec(
            wallpaper_view,
            audio,
            loop_playlist,
            duration,
        ));
    }
    args
}

} // verus!
