//! File-name helpers for a downloaded image: the extension of a URL and the
//! full path a day's wallpaper is stored under.

use vstd::prelude::*;

use crate::date::Date;
use crate::decimal::{push_unpadded, unpadded};

verus! {

/// The position of the last `'.'` in `s`.
pub open spec fn last_dot(s: Seq<char>) -> int {
    choose|i: int|
        0 <= i < s.len() && s[i] == '.' && (forall|j: int| i < j < s.len() ==> s[j] != '.')
}

/// Everything after the last `'.'` of `s`.
pub open spec fn extension_of(s: Seq<char>) -> Seq<char> {
    s.subrange(last_dot(s) + 1, s.len() as int)
}

/// The file extension of `string`: the text after its last `'.'`, which
/// must be present.
pub fn get_file_extension(string: &str) -> (r: String)
    requires
        exists|i: int| 0 <= i < string@.len() && string@[i] == '.',
    ensures
        r@ == extension_of(string@),
{
    let len = string.unicode_len();
    let mut found: bool = false;
    let mut dot: usize = 0;
    let mut i: usize = 0;
    while i < len
        invariant
            len == string@.len(),
            0 <= i <= len,
            found ==> dot < i && string@[dot as int] == '.' && (forall|j: int|
                dot < j < i ==> string@[j] != '.'),
            !found ==> forall|j: int| 0 <= j < i ==> string@[j] != '.',
        decreases len - i,
    {
        if string.get_char(i) == '.' {
            found = true;
            dot = i;
        }
        i += 1;
    }
    assert(found);
    proof {
        let c = last_dot(string@);
        assert(0 <= c < string@.len() && string@[c] == '.' && (forall|j: int|
            c < j < string@.len() ==> string@[j] != '.')) by {
            assert(0 <= dot < string@.len() && string@[dot as int] == '.' && (forall|j: int|
                dot < j < string@.len() ==> string@[j] != '.'));
        };
        if c < dot {
            assert(string@[dot as int] != '.');
        }
        if c > dot {
            assert(string@[c] != '.');
        }
        assert(c == dot);
    }
    let ext = string.substring_char(dot + 1, len);
    ext.to_owned()
}

/// The path a day's wallpaper is stored under: the wallpaper directory
/// followed by `day_month_year.extension`, the numbers unpadded and the
/// extension taken from the image URL.
pub fn get_wallpaper_dir(wallpaper_url: &str, wallpaper_dir: &str, date: &Date) -> (r: String)
    requires
        exists|i: int| 0 <= i < wallpaper_url@.len() && wallpaper_url@[i] == '.',
        date.valid(),
    ensures
        r@ == wallpaper_dir@ + unpadded(date.day as int) + "_"@ + unpadded(date.month as int)
            + "_"@ + unpadded(date.year as int) + "."@ + extension_of(wallpaper_url@),
{
    proof {
        reveal_strlit("_");
        reveal_strlit(".");
    }
    let ext = get_file_extension(wallpaper_url);
    let mut r = wallpaper_dir.to_owned();
    push_unpadded(&mut r, date.day);
    r.append("_");
    push_unpadded(&mut r, date.month);
    r.append("_");
    push_unpadded(&mut r, date.year);
    r.append(".");
    r.append(ext.as_str());
    assert(r@ =~= wallpaper_dir@ + unpadded(date.day as int) + "_"@ + unpadded(date.month as int)
        + "_"@ + unpadded(date.year as int) + "."@ + extension_of(wallpaper_url@));
    r
}

} // verus!
