use crate::decision::or_else;
use crate::json::{Json, JsonModel, Member};
use crate::state::{latest_user_query, AgentState};
use crate::text::{
    ascii_lowercase, chars_of, contains, contains_in, find, find_char, find_char_in, find_in,
    is_blank, lemma_find_from, lower_ascii, opt_text, owned_text, same_chars,
    string_of, strip, strip_range, trim, trim_range,
};
use vstd::prelude::*;
use vstd::string::StringExecFns;

verus! {

/// `s` trimmed, then without the double quotes and then the single quotes at
/// its ends.
pub open spec fn unquote(s: Seq<char>) -> Seq<char> {
    strip(strip(trim(s), '"'), '\'')
}

/// `s` up to the first `c`, or all of it where there is none.
pub open spec fn cut_at(s: Seq<char>, c: char) -> Seq<char> {
    match find_char(s, c) {
        Some(i) => s.take(i),
        None => s,
    }
}

/// A place name out of the text that follows a cue: unquoted, cut at the
/// first comma, then semicolon, then line break, and unquoted again.
pub open spec fn clean_city(raw: Seq<char>) -> Seq<char> {
    unquote(cut_at(cut_at(cut_at(unquote(raw), ','), ';'), '\n'))
}

/// What follows the first occurrence of `needle` in `text`, letter case of
/// ASCII letters set aside.
pub open spec fn text_after(text: Seq<char>, needle: Seq<char>) -> Option<Seq<char>> {
    match find(ascii_lowercase(text), ascii_lowercase(needle)) {
        Some(i) => Some(text.skip(i + needle.len())),
        None => None,
    }
}

/// The place name that follows the cue `cue` in `text`, if it is not empty.
pub open spec fn city_after(text: Seq<char>, cue: Seq<char>) -> Option<Seq<char>> {
    match text_after(text, cue) {
        Some(raw) => if clean_city(raw).len() > 0 {
            Some(clean_city(raw))
        } else {
            None
        },
        None => None,
    }
}

/// The place name that a sentence speaks of: what follows `city=`, else
/// `city:`, else ` in `, else ` for `.
pub open spec fn city_in_text(text: Seq<char>) -> Option<Seq<char>> {
    or_else(
        city_after(text, "city="@),
        or_else(
            city_after(text, "city:"@),
            or_else(city_after(text, " in "@), city_after(text, " for "@)),
        ),
    )
}

/// A text trimmed, if anything is left of it.
pub open spec fn trimmed_text(o: Option<Seq<char>>) -> Option<Seq<char>> {
    match o {
        Some(s) => if is_blank(s) {
            None
        } else {
            Some(trim(s))
        },
        None => None,
    }
}

/// The place name under one of the usual keys of an object.
pub open spec fn direct_city(args: JsonModel) -> Option<Seq<char>> {
    or_else(
        trimmed_text(args.member_text("city"@)),
        or_else(
            trimmed_text(args.member_text("location"@)),
            or_else(
                trimmed_text(args.member_text("place"@)),
                or_else(
                    trimmed_text(args.member_text("town"@)),
                    trimmed_text(args.member_text("query"@)),
                ),
            ),
        ),
    )
}

/// The place name under the first member, from index `at` on, whose key holds
/// `city` in any letter case and whose value is a string that is not blank.
pub open spec fn keyed_city(entries: Seq<(Seq<char>, JsonModel)>, at: int) -> Option<Seq<char>>
    decreases entries.len() - at,
{
    if at < 0 || at >= entries.len() {
        None
    } else if contains(ascii_lowercase(entries[at].0), "city"@) && trimmed_text(
        entries[at].1.text(),
    ) is Some {
        trimmed_text(entries[at].1.text())
    } else {
        keyed_city(entries, at + 1)
    }
}

/// The place name that the arguments of a call hold.
pub open spec fn city_in_args(args: JsonModel) -> Option<Seq<char>> {
    match args {
        JsonModel::Str(s) => trimmed_text(Some(s)),
        JsonModel::Object(entries) => or_else(direct_city(args), keyed_city(entries, 0)),
        _ => None,
    }
}

/// Whether `name` names the weather tool, letter case of ASCII letters set aside.
pub open spec fn is_weather_tool(name: Seq<char>) -> bool {
    ascii_lowercase(name) == ascii_lowercase("fetch-weather"@)
}

/// The arguments `{"city": city}`.
pub open spec fn city_arguments(city: Seq<char>) -> JsonModel {
    JsonModel::Object(seq![("city"@, JsonModel::Str(city))])
}

/// The arguments to send for a tool call. Those of the weather tool are
/// rebuilt around the place name found in them or, failing that, in the latest
/// user turn; all others, and those without a place name, stay.
pub open spec fn normalized_args(
    name: Seq<char>,
    args: JsonModel,
    latest_user: Option<Seq<char>>,
) -> JsonModel {
    if !is_weather_tool(name) {
        args
    } else {
        match or_else(
            city_in_args(args),
            match latest_user {
                Some(q) => city_in_text(q),
                None => None,
            },
        ) {
            Some(city) => city_arguments(city),
            None => args,
        }
    }
}

/// A place name out of the text that follows a cue.
pub fn clean_city_candidate(raw: &str) -> (r: String)
    ensures
        r@ == clean_city(raw@),
{
    let v = chars_of(raw);
    assert(v@.subrange(0, v.len() as int) =~= v@);
    let (a, b) = trim_range(&v, 0, v.len());
    let (a, b) = strip_range(&v, a, b, '"');
    let (a, b) = strip_range(&v, a, b, '\'');
    let b = cut_range(&v, a, b, ',');
    let b = cut_range(&v, a, b, ';');
    let b = cut_range(&v, a, b, '\n');
    let (a, b) = trim_range(&v, a, b);
    let (a, b) = strip_range(&v, a, b, '"');
    let (a, b) = strip_range(&v, a, b, '\'');
    string_of(&v, a, b)
}

fn cut_range(v: &Vec<char>, from: usize, to: usize, c: char) -> (r: usize)
    requires
        from <= to <= v.len(),
    ensures
        from <= r <= to,
        v@.subrange(from as int, r as int) == cut_at(v@.subrange(from as int, to as int), c),
{
    match find_char_in(v, from, to, c) {
        Some(i) => {
            from + i
        },
        None => to,
    }
}

/// What follows the first occurrence of `needle` in `text`, letter case of
/// ASCII letters set aside.
pub fn take_after_case_insensitive(text: &str, needle: &str) -> (r: Option<String>)
    ensures
        owned_text(r) == text_after(text@, needle@),
{
    let v = chars_of(text);
    let n = chars_of(needle);
    let hay = lower_ascii(&v);
    let low = lower_ascii(&n);
    match find_in(&hay, &low) {
        Some(i) => {
            proof {
                lemma_find_from(hay@, low@, 0);
                assert(i + n.len() <= v.len());
            }
            let start: usize = i + n.len();
            Some(string_of(&v, start, v.len()))
        },
        None => None,
    }
}

fn city_after_cue(text: &str, cue: &str) -> (r: Option<String>)
    ensures
        owned_text(r) == city_after(text@, cue@),
{
    match take_after_case_insensitive(text, cue) {
        Some(raw) => {
            let city = clean_city_candidate(raw.as_str());
            if city.as_str().unicode_len() > 0 {
                Some(city)
            } else {
                None
            }
        },
        None => None,
    }
}

/// The place name that a sentence speaks of.
pub fn infer_city_from_text(text: &str) -> (r: Option<String>)
    ensures
        owned_text(r) == city_in_text(text@),
{
    let found = city_after_cue(text, "city=");
    if found.is_some() {
        return found;
    }
    let found = city_after_cue(text, "city:");
    if found.is_some() {
        return found;
    }
    let found = city_after_cue(text, " in ");
    if found.is_some() {
        return found;
    }
    city_after_cue(text, " for ")
}

fn trimmed_copy(o: Option<&String>) -> (r: Option<String>)
    ensures
        owned_text(r) == trimmed_text(opt_text(o)),
{
    match o {
        Some(s) => {
            let v = chars_of(s.as_str());
            assert(v@.subrange(0, v.len() as int) =~= v@);
            let (a, b) = trim_range(&v, 0, v.len());
            if a == b {
                None
            } else {
                Some(string_of(&v, a, b))
            }
        },
        None => None,
    }
}

fn city_under_usual_key(args: &Json) -> (r: Option<String>)
    ensures
        owned_text(r) == direct_city(args@),
{
    let found = trimmed_copy(args.get_str("city"));
    if found.is_some() {
        return found;
    }
    let found = trimmed_copy(args.get_str("location"));
    if found.is_some() {
        return found;
    }
    let found = trimmed_copy(args.get_str("place"));
    if found.is_some() {
        return found;
    }
    let found = trimmed_copy(args.get_str("town"));
    if found.is_some() {
        return found;
    }
    trimmed_copy(args.get_str("query"))
}

/// The place name that the arguments of a call hold.
pub fn extract_city_from_args(args: &Json) -> (r: Option<String>)
    ensures
        owned_text(r) == city_in_args(args@),
{
    match args {
        Json::Str(s) => trimmed_copy(Some(s)),
        Json::Object(members) => {
            let found = city_under_usual_key(args);
            if found.is_some() {
                return found;
            }
            let city = chars_of("city");
            let mut i: usize = 0;
            while i < members.len()
                invariant
                    i <= members.len(),
                    city@ == "city"@,
                    args@ is Object,
                    direct_city(args@) is None,
                    args@->Object_0.len() == members@.len(),
                    forall|k: int|
                        0 <= k < members@.len() ==> args@->Object_0[k] == (
                            members@[k].key@,
                            members@[k].value@,
                        ),
                    keyed_city(args@->Object_0, 0) == keyed_city(args@->Object_0, i as int),
                decreases members.len() - i,
            {
                let key = lower_ascii(&chars_of(members[i].key.as_str()));
                if contains_in(&key, &city) {
                    let found = trimmed_copy(members[i].value.as_str());
                    if found.is_some() {
                        return found;
                    }
                }
                i = i + 1;
            }
            None
        },
        _ => None,
    }
}

/// The arguments to send for a tool call.
pub fn normalize_tool_args(name: &str, args: Json, state: &AgentState) -> (r: Json)
    ensures
        r@ == normalized_args(name@, args@, state@.latest_user()),
{
    let lowered = lower_ascii(&chars_of(name));
    let weather = lower_ascii(&chars_of("fetch-weather"));
    if !same_chars(&lowered, &weather) {
        return args;
    }
    let mut city = extract_city_from_args(&args);
    if city.is_none() {
        city = match latest_user_query(state) {
            Some(q) => infer_city_from_text(q.as_str()),
            None => None,
        };
    }
    match city {
        Some(c) => {
            let mut members: Vec<Member> = Vec::new();
            members.push(Member { key: String::from_str("city"), value: Json::Str(c) });
            assert(members@[0].value@ == JsonModel::Str(c@));
            let r = Json::Object(members);
            assert(r@->Object_0 =~= seq![("city"@, JsonModel::Str(c@))]);
            r
        },
        None => args,
    }
}

} // verus!
