//! The decisions of the interactive model configuration wizard: reading
//! answers, menu choices and validation, and how an API key is shown.
use crate::text::{
    chars_of, eq_str, has_prefix, lower_seq, parse_uint, parse_uint_spec, push_chars, slice_chars,
    starts_with_str, string_from, string_of, to_ascii_lower, trim, trim_spec,
};
use vstd::prelude::*;

verus! {

/// How many interface presets the wizard offers.
pub const PRESET_COUNT: usize = 3;

/// A typed answer: trimmed, or the default when nothing was typed.
pub open spec fn answer_spec(line: Seq<char>, default: Seq<char>) -> Seq<char> {
    let t = trim_spec(line);
    if t.len() == 0 {
        default
    } else {
        t
    }
}

/// The answer to a prompt, given the line that was read.
pub fn prompt_answer(line: &str, default: &str) -> (r: String)
    ensures
        r@ == answer_spec(line@, default@),
{
    let t = trim(&chars_of(line));
    if t.len() == 0 {
        string_from(default)
    } else {
        string_of(&t)
    }
}

/// What a yes/no prompt shows as its default.
pub open spec fn bool_default_text(default: bool) -> Seq<char> {
    if default {
        "Y/n"@
    } else {
        "y/N"@
    }
}

pub fn bool_default_label(default: bool) -> (r: &'static str)
    ensures
        r@ == bool_default_text(default),
{
    if default {
        "Y/n"
    } else {
        "y/N"
    }
}

pub open spec fn bool_answer_spec(value: Seq<char>, default: bool) -> Option<bool> {
    if value == bool_default_text(default) {
        Some(default)
    } else {
        let l = lower_seq(value);
        if l == "y"@ || l == "yes"@ || l == "true"@ || l == "1"@ {
            Some(true)
        } else if l == "n"@ || l == "no"@ || l == "false"@ || l == "0"@ {
            Some(false)
        } else {
            None
        }
    }
}

/// Reads a yes/no answer (after defaulting); `None` asks again.
pub fn prompt_bool(value: &str, default: bool) -> (r: Option<bool>)
    ensures
        r == bool_answer_spec(value@, default),
{
    let v = chars_of(value);
    if eq_str(&v, bool_default_label(default)) {
        return Some(default);
    }
    let l = to_ascii_lower(&v);
    if eq_str(&l, "y") || eq_str(&l, "yes") || eq_str(&l, "true") || eq_str(&l, "1") {
        Some(true)
    } else if eq_str(&l, "n") || eq_str(&l, "no") || eq_str(&l, "false") || eq_str(&l, "0") {
        Some(false)
    } else {
        None
    }
}

/// Reads a whole number (after defaulting); `None` asks again.
pub fn prompt_parse(value: &str) -> (r: Option<usize>)
    ensures
        match r {
            Some(n) => parse_uint_spec(value@, usize::MAX as nat) == Some(n as nat),
            None => parse_uint_spec(value@, usize::MAX as nat) is None,
        },
{
    match parse_uint(&chars_of(value), usize::MAX as u64) {
        Some(n) => Some(n as usize),
        None => None,
    }
}

/// What the first menu asks for.
#[derive(Debug, Clone, Copy, PartialEq, Eq)]
pub enum MenuChoice {
    Cancel,
    Configure,
    /// Switch to the profile at this position of the list.
    Switch(usize),
    Invalid,
}

pub open spec fn menu_spec(action: Seq<char>, profiles: nat) -> MenuChoice {
    if action == "0"@ {
        MenuChoice::Cancel
    } else if action == "1"@ {
        MenuChoice::Configure
    } else {
        match parse_uint_spec(action, usize::MAX as nat) {
            Some(n) => if n >= 2 && n - 2 < profiles {
                MenuChoice::Switch((n - 2) as usize)
            } else {
                MenuChoice::Invalid
            },
            None => MenuChoice::Invalid,
        }
    }
}

/// Reads the first menu: `0` cancels, `1` configures, `2..` switch profiles.
pub fn menu_choice(action: &str, profiles: usize) -> (r: MenuChoice)
    ensures
        r == menu_spec(action@, profiles as nat),
{
    let a = chars_of(action);
    if eq_str(&a, "0") {
        return MenuChoice::Cancel;
    }
    if eq_str(&a, "1") {
        return MenuChoice::Configure;
    }
    match parse_uint(&a, usize::MAX as u64) {
        Some(n) => {
            if n >= 2 && n - 2 < profiles as u64 {
                MenuChoice::Switch((n - 2) as usize)
            } else {
                MenuChoice::Invalid
            }
        },
        None => MenuChoice::Invalid,
    }
}

pub open spec fn preset_spec(value: Seq<char>) -> Option<usize> {
    match parse_uint_spec(value, usize::MAX as nat) {
        Some(n) => if 1 <= n <= PRESET_COUNT {
            Some(n as usize)
        } else {
            None
        },
        None => None,
    }
}

/// Reads the number of an interface preset, from 1 to 3.
pub fn preset_choice(value: &str) -> (r: Option<usize>)
    ensures
        r == preset_spec(value@),
{
    match parse_uint(&chars_of(value), usize::MAX as u64) {
        Some(n) => {
            if 1 <= n && n <= PRESET_COUNT as u64 {
                Some(n as usize)
            } else {
                None
            }
        },
        None => None,
    }
}

/// An endpoint must use HTTP or HTTPS.
pub fn endpoint_is_http(endpoint: &str) -> (r: bool)
    ensures
        r == (has_prefix(endpoint@, "http://"@) || has_prefix(endpoint@, "https://"@)),
{
    let e = chars_of(endpoint);
    starts_with_str(&e, "http://") || starts_with_str(&e, "https://")
}

/// The cloud preset (the first) needs an API key; the others may go without.
pub fn api_key_accepted(preset: usize, key: &str) -> (r: bool)
    ensures
        r == (preset != 1 || key@.len() > 0),
{
    preset != 1 || !key.is_empty()
}

pub open spec fn mask_spec(key: Seq<char>) -> Seq<char> {
    if key.len() == 0 {
        "（未设置）"@
    } else if key.len() <= 8 {
        "********"@
    } else {
        key.take(4) + "…"@ + key.skip(key.len() - 4)
    }
}

/// An API key as shown on screen: its first and last four characters.
pub fn mask_key(key: &str) -> (r: String)
    ensures
        r@ == mask_spec(key@),
{
    let k = chars_of(key);
    if k.len() == 0 {
        string_from("（未设置）")
    } else if k.len() <= 8 {
        string_from("********")
    } else {
        let n = k.len();
        let mut out = string_of(&slice_chars(&k, 0, 4));
        crate::text::push_str(&mut out, "…");
        push_chars(&mut out, &slice_chars(&k, n - 4, n));
        assert(k@.subrange(0, 4) =~= k@.take(4));
        assert(k@.subrange(n - 4, n as int) =~= k@.skip(n - 4));
        out
    }
}

} // verus!
