//! How a widget window is sized and placed.
use vstd::prelude::*;

use crate::config::{WindowConfig, EXCLUSIVE_ZONE_AUTO};
use crate::json::{i64_of, json_i64, json_member, member_of};

verus! {

impl WindowConfig {
    /// The space the window reserves at its edge: its height when the exclusive zone is
    /// automatic, else the configured zone.
    pub fn effective_exclusive_zone(&self) -> (r: i32)
        ensures
            r == (if self.exclusive_zone == EXCLUSIVE_ZONE_AUTO {
                self.height
            } else {
                self.exclusive_zone
            }),
    {
        if self.exclusive_zone == EXCLUSIVE_ZONE_AUTO {
            self.height
        } else {
            self.exclusive_zone
        }
    }

    /// The width the window is given, when one is configured (a width of 0 or less leaves
    /// the width to the anchors).
    pub fn explicit_width(&self) -> (r: Option<i32>)
        ensures
            r == (if self.width > 0 {
                Some(self.width)
            } else {
                None::<i32>
            }),
    {
        if self.width > 0 {
            Some(self.width)
        } else {
            None
        }
    }
}

/// The new default size asked for by a `window.resize` call with the integer `width` and
/// `height` it gave (each `None` where absent or not an integer); each value is cut to 32 bits.
pub fn resize_dimensions(width: Option<i64>, height: Option<i64>) -> (r: (Option<i32>, Option<i32>))
    ensures
        r.0 == match width {
            Some(w) => Some(w as i32),
            None => None::<i32>,
        },
        r.1 == match height {
            Some(h) => Some(h as i32),
            None => None::<i32>,
        },
{
    let w = match width {
        Some(w) => Some(w as i32),
        None => None,
    };
    let h = match height {
        Some(h) => Some(h as i32),
        None => None,
    };
    (w, h)
}

/// The integer member `key` of the object that the JSON text `text` holds, where it has one
/// that fits in an `i64`.
pub open spec fn member_i64(text: Seq<char>, key: Seq<char>) -> Option<i64> {
    match member_of(text, key) {
        Some(m) => i64_of(m),
        None => None,
    }
}

fn member_integer(data: &str, key: &str) -> (r: Option<i64>)
    ensures
        r == member_i64(data@, key@),
{
    match json_member(data, key) {
        Some(m) => json_i64(m.as_str()),
        None => None,
    }
}

/// The new default size asked for by a `window.resize` call with the JSON argument `data`
/// (see [`resize_dimensions`]): its integer `width` and `height` members, cut to 32 bits.
pub fn resize_request(data: &str) -> (r: (Option<i32>, Option<i32>))
    ensures
        r.0 == match member_i64(data@, "width"@) {
            Some(w) => Some(w as i32),
            None => None::<i32>,
        },
        r.1 == match member_i64(data@, "height"@) {
            Some(h) => Some(h as i32),
            None => None::<i32>,
        },
{
    let width = member_integer(data, "width");
    let height = member_integer(data, "height");
    resize_dimensions(width, height)
}

} // verus!
