//! The input events the controller and the panels decide on: a plain model
//! of the keys the front end reads from the terminal.  Control-modified
//! keys (clipboard copy and paste) are handled by the front end itself and
//! never reach this model.

use vstd::prelude::*;

verus! {

/// One key press, as the update logic sees it.
#[derive(Debug, Clone, Copy)]
pub enum InputKey {
    F(u8),
    Esc,
    Enter,
    Backspace,
    Left,
    Right,
    Up,
    Down,
    Char(char),
    Other,
}

/// How a list panel's cursor and scroll offset react to one key: up and
/// down move inside `[0, len)`, and the offset follows to keep the cursor
/// inside a ten-row window.
pub open spec fn list_key_post(
    pre_cursor: int,
    pre_offset: int,
    len: int,
    post_cursor: int,
    post_offset: int,
    key: InputKey,
) -> bool {
    match key {
        InputKey::Up => if pre_cursor > 0 {
            post_cursor == pre_cursor - 1 && post_offset == (if post_cursor < pre_offset {
                post_cursor
            } else {
                pre_offset
            })
        } else {
            post_cursor == pre_cursor && post_offset == pre_offset
        },
        InputKey::Down => if pre_cursor + 1 < len {
            post_cursor == pre_cursor + 1 && post_offset == (if post_cursor >= pre_offset + 10 {
                post_cursor - 9
            } else {
                pre_offset
            })
        } else {
            post_cursor == pre_cursor && post_offset == pre_offset
        },
        _ => post_cursor == pre_cursor && post_offset == pre_offset,
    }
}

/// How a text field reacts to one key: a plain character is inserted,
/// backspace deletes to the left, the arrows move the cursor, and any other
/// key is ignored.
pub open spec fn text_key_post(
    pre_value: Seq<char>,
    pre_cursor: int,
    post_value: Seq<char>,
    post_cursor: int,
    key: InputKey,
) -> bool {
    match key {
        InputKey::Char(c) => post_value == pre_value.subrange(0, pre_cursor) + seq![c]
            + pre_value.subrange(pre_cursor, pre_value.len() as int) && post_cursor == pre_cursor
            + 1,
        InputKey::Backspace => if pre_cursor > 0 {
            post_value == pre_value.subrange(0, pre_cursor - 1) + pre_value.subrange(
                pre_cursor,
                pre_value.len() as int,
            ) && post_cursor == pre_cursor - 1
        } else {
            post_value == pre_value && post_cursor == pre_cursor
        },
        InputKey::Left => post_value == pre_value && post_cursor == (if pre_cursor > 0 {
            pre_cursor - 1
        } else {
            0int
        }),
        InputKey::Right => post_value == pre_value && post_cursor == (if pre_cursor
            < pre_value.len() {
            pre_cursor + 1
        } else {
            pre_cursor
        }),
        _ => post_value == pre_value && post_cursor == pre_cursor,
    }
}

} // verus!
