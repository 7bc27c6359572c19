//! Keyboard input of the panel: which keys move the camera, and where.

use vstd::prelude::*;
use crate::proto::direction_named;
use crate::text::str_equals;

verus! {

/// The direction name a key stands for: W, S, A, D in either case, or the
/// arrow keys.
pub open spec fn key_direction(key: Seq<char>) -> Option<Seq<char>> {
    if key == "w"@ || key == "W"@ || key == "ArrowUp"@ {
        Some("forward"@)
    } else if key == "s"@ || key == "S"@ || key == "ArrowDown"@ {
        Some("backward"@)
    } else if key == "a"@ || key == "A"@ || key == "ArrowLeft"@ {
        Some("left"@)
    } else if key == "d"@ || key == "D"@ || key == "ArrowRight"@ {
        Some("right"@)
    } else {
        None
    }
}

/// The direction name for the key `key`, if it moves the camera.
pub fn direction_for_key(key: &str) -> (r: Option<String>)
    ensures
        match r {
            Some(d) => key_direction(key@) == Some(d@),
            None => key_direction(key@) is None,
        },
{
    if str_equals(key, "w") || str_equals(key, "W") || str_equals(key, "ArrowUp") {
        Some(String::from_str("forward"))
    } else if str_equals(key, "s") || str_equals(key, "S") || str_equals(key, "ArrowDown") {
        Some(String::from_str("backward"))
    } else if str_equals(key, "a") || str_equals(key, "A") || str_equals(key, "ArrowLeft") {
        Some(String::from_str("left"))
    } else if str_equals(key, "d") || str_equals(key, "D") || str_equals(key, "ArrowRight") {
        Some(String::from_str("right"))
    } else {
        None
    }
}

/// Every direction a key sends is one the server accepts.
pub proof fn law_key_directions_are_accepted(key: Seq<char>)
    ensures
        key_direction(key) matches Some(d) ==> direction_named(d) is Some,
{
    reveal_strlit("forward");
    reveal_strlit("backward");
    reveal_strlit("left");
    reveal_strlit("right");
}

/// The camera keys: W or the up arrow moves forward, S or the down arrow
/// backward, A or the left arrow left, D or the right arrow right, the
/// letters in either case; no other key moves the camera.
pub proof fn law_camera_keys(key: Seq<char>)
    ensures
        key == "w"@ || key == "W"@ || key == "ArrowUp"@ ==> key_direction(key) == Some("forward"@),
        key == "s"@ || key == "S"@ || key == "ArrowDown"@ ==> key_direction(key) == Some(
            "backward"@,
        ),
        key == "a"@ || key == "A"@ || key == "ArrowLeft"@ ==> key_direction(key) == Some("left"@),
        key == "d"@ || key == "D"@ || key == "ArrowRight"@ ==> key_direction(key) == Some(
            "right"@,
        ),
        key_direction(key) is Some ==> (key == "w"@ || key == "W"@ || key == "ArrowUp"@ || key
            == "s"@ || key == "S"@ || key == "ArrowDown"@ || key == "a"@ || key == "A"@ || key
            == "ArrowLeft"@ || key == "d"@ || key == "D"@ || key == "ArrowRight"@),
{
    reveal_strlit("w");
    reveal_strlit("W");
    reveal_strlit("ArrowUp");
    reveal_strlit("s");
    reveal_strlit("S");
    reveal_strlit("ArrowDown");
    reveal_strlit("a");
    reveal_strlit("A");
    reveal_strlit("ArrowLeft");
    reveal_strlit("d");
    reveal_strlit("D");
    reveal_strlit("ArrowRight");
    assert("w"@[0] == 'w' && "W"@[0] == 'W' && "s"@[0] == 's' && "S"@[0] == 'S');
    assert("a"@[0] == 'a' && "A"@[0] == 'A' && "d"@[0] == 'd' && "D"@[0] == 'D');
    assert("w"@.len() == 1 && "W"@.len() == 1 && "s"@.len() == 1 && "S"@.len() == 1);
    assert("a"@.len() == 1 && "A"@.len() == 1 && "d"@.len() == 1 && "D"@.len() == 1);
    assert("ArrowUp"@.len() == 7 && "ArrowDown"@.len() == 9 && "ArrowLeft"@.len() == 9
        && "ArrowRight"@.len() == 10);
    assert("ArrowDown"@[5] == 'D' && "ArrowLeft"@[5] == 'L');
}

} // verus!
