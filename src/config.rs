//! Structural validation of the configuration document. Validation only
//! reports: the document is used as it is, whatever it holds.
use vstd::prelude::*;
use crate::colors::{error, marked, warning, Color};
use crate::json::{field, nested, parse_json, parsed, JsonValue};

verus! {

pub open spec fn digit_chars() -> Seq<char> {
    "0123456789"@
}

/// The decimal writing of `n`.
pub open spec fn decimal_text(n: nat) -> Seq<char>
    decreases n,
{
    if n < 10 {
        seq![digit_chars()[n as int]]
    } else {
        decimal_text(n / 10).push(digit_chars()[(n % 10) as int])
    }
}

/// The decimal writing of `n`.
pub fn decimal(n: usize) -> (r: String)
    ensures
        r@ == decimal_text(n as nat),
    decreases n,
{
    proof {
        reveal_strlit("0123456789");
    }
    let digits = "0123456789";
    if n < 10 {
        let d = digits.substring_char(n, n + 1);
        assert(d@ =~= seq![digit_chars()[n as int]]);
        String::from_str(d)
    } else {
        let mut s = decimal(n / 10);
        let d = digits.substring_char(n % 10, n % 10 + 1);
        assert(d@ =~= seq![digit_chars()[(n % 10) as int]]);
        s.append(d);
        s
    }
}

/// A present `commit.format_mode` warns unless it is the string
/// `upper_case` or `lower_case`; a string is named in the warning.
pub open spec fn format_mode_warnings(c: JsonValue) -> Seq<Seq<char>> {
    match nested(c, "commit"@, "format_mode"@) {
        Some(JsonValue::Str(m)) => if m@ != "upper_case"@ && m@ != "lower_case"@ {
            seq!["Invalid format_mode '"@ + m@ + "'. Valid values: 'upper_case', 'lower_case'"@]
        } else {
            seq![]
        },
        Some(_) => seq!["Invalid format_mode (not a string). Valid values: 'upper_case', 'lower_case'"@],
        None => seq![],
    }
}

pub open spec fn flag_warnings(c: JsonValue, key: Seq<char>) -> Seq<Seq<char>> {
    match nested(c, "commit"@, key) {
        Some(v) => if v is Bool {
            seq![]
        } else {
            seq![key + " should be a boolean (true/false)"@]
        },
        None => seq![],
    }
}

pub open spec fn section_warnings(c: JsonValue, section: Seq<char>) -> Seq<Seq<char>> {
    let count: Seq<Seq<char>> = match nested(c, section, "count"@) {
        Some(v) => if v is Number && v->Number_0 is Some {
            seq![]
        } else {
            seq![section + ".count should be a positive number"@]
        },
        None => seq![],
    };
    let info: Seq<Seq<char>> = match nested(c, section, "info"@) {
        Some(JsonValue::Str(i)) => if i@ != "less"@ && i@ != "more"@ {
            seq![section + ".info should be 'less' or 'more'"@]
        } else {
            seq![]
        },
        Some(_) => seq![section + ".info should be 'less' or 'more'"@],
        None => seq![],
    };
    count + info
}

/// The warning for a hook entry, at 1-based position `pos`, that lacks `key`.
pub open spec fn missing_field_text(pos: nat, key: Seq<char>) -> Seq<char> {
    "Hook #"@ + decimal_text(pos) + " is missing '"@ + key + "' field"@
}

pub open spec fn hook_entry_warnings(h: JsonValue, pos: nat) -> Seq<Seq<char>> {
    let name: Seq<Seq<char>> = if field(h, "name"@) is None {
        seq![missing_field_text(pos, "name"@)]
    } else {
        seq![]
    };
    let commands: Seq<Seq<char>> = if field(h, "commands"@) is None {
        seq![missing_field_text(pos, "commands"@)]
    } else {
        seq![]
    };
    name + commands
}

/// The warnings for a list of hook entries, in order.
pub open spec fn hook_list_warnings(items: Seq<JsonValue>) -> Seq<Seq<char>>
    decreases items.len(),
{
    if items.len() == 0 {
        seq![]
    } else {
        hook_list_warnings(items.drop_last()) + hook_entry_warnings(items.last(), items.len())
    }
}

pub open spec fn hooks_warnings(c: JsonValue) -> Seq<Seq<char>> {
    match field(c, "hooks"@) {
        Some(JsonValue::Array(items)) => hook_list_warnings(items@),
        _ => seq![],
    }
}

/// Every warning for a configuration document, in the order reported.
pub open spec fn config_warnings(c: JsonValue) -> Seq<Seq<char>> {
    format_mode_warnings(c) + flag_warnings(c, "emoji_enabled"@) + flag_warnings(
        c,
        "require_conventional"@,
    ) + section_warnings(c, "log"@) + section_warnings(c, "tlog"@) + hooks_warnings(c)
}

fn nested_get<'a>(c: &'a JsonValue, outer: &str, inner: &str) -> (r: Option<&'a JsonValue>)
    ensures
        match r {
            Some(x) => nested(*c, outer@, inner@) == Some(*x),
            None => nested(*c, outer@, inner@) is None,
        },
{
    match c.get(outer) {
        Some(o) => o.get(inner),
        None => None,
    }
}

fn join3(a: &str, b: &str, c: &str) -> (r: String)
    ensures
        r@ == a@ + b@ + c@,
{
    let mut s = String::from_str(a);
    s.append(b);
    s.append(c);
    s
}

fn format_mode_check(c: &JsonValue) -> (r: Vec<String>)
    ensures
        r.deep_view() == format_mode_warnings(*c),
{
    let mut r: Vec<String> = Vec::new();
    if let Some(v) = nested_get(c, "commit", "format_mode") {
        match v.as_str() {
            Some(m) => {
                if !crate::json::same_text(m, "upper_case") && !crate::json::same_text(m, "lower_case") {
                    r.push(join3("Invalid format_mode '", m, "'. Valid values: 'upper_case', 'lower_case'"));
                    assert(r.deep_view() =~= format_mode_warnings(*c));
                }
            },
            None => {
                r.push(String::from_str("Invalid format_mode (not a string). Valid values: 'upper_case', 'lower_case'"));
                assert(r.deep_view() =~= format_mode_warnings(*c));
            },
        }
    }
    assert(r.deep_view() =~= format_mode_warnings(*c));
    r
}

fn flag_check(c: &JsonValue, key: &str) -> (r: Vec<String>)
    ensures
        r.deep_view() == flag_warnings(*c, key@),
{
    let mut r: Vec<String> = Vec::new();
    if let Some(v) = nested_get(c, "commit", key) {
        if !v.is_boolean() {
            r.push(join3(key, " should be a boolean (true/false)", ""));
            assert(""@.len() == 0) by {
                reveal_strlit("");
            }
            assert(r.deep_view() =~= flag_warnings(*c, key@));
        }
    }
    assert(r.deep_view() =~= flag_warnings(*c, key@));
    r
}

fn section_check(c: &JsonValue, section: &str) -> (r: Vec<String>)
    ensures
        r.deep_view() == section_warnings(*c, section@),
{
    proof {
        reveal_strlit("");
    }
    let mut r: Vec<String> = Vec::new();
    if let Some(v) = nested_get(c, section, "count") {
        if !v.is_u64() {
            r.push(join3(section, ".count should be a positive number", ""));
        }
    }
    let ghost first = r.deep_view();
    if let Some(v) = nested_get(c, section, "info") {
        let fits = match v.as_str() {
            Some(i) => crate::json::same_text(i, "less") || crate::json::same_text(i, "more"),
            None => false,
        };
        if !fits {
            r.push(join3(section, ".info should be 'less' or 'more'", ""));
        }
    }
    assert(r.deep_view() =~= section_warnings(*c, section@));
    r
}

fn missing_field(pos: usize, key: &str) -> (r: String)
    ensures
        r@ == missing_field_text(pos as nat, key@),
{
    let mut s = String::from_str("Hook #");
    let d = decimal(pos);
    s.append(d.as_str());
    s.append(" is missing '");
    s.append(key);
    s.append("' field");
    s
}

fn hooks_check(c: &JsonValue) -> (r: Vec<String>)
    ensures
        r.deep_view() == hooks_warnings(*c),
{
    let mut r: Vec<String> = Vec::new();
    match c.get("hooks") {
        Some(JsonValue::Array(items)) => {
            let mut i: usize = 0;
            assert(items@.subrange(0, 0) =~= Seq::<JsonValue>::empty());
            while i < items.len()
                invariant
                    i <= items@.len(),
                    r.deep_view() == hook_list_warnings(items@.subrange(0, i as int)),
                decreases items@.len() - i,
            {
                let ghost before = r.deep_view();
                let ghost upto = items@.subrange(0, i + 1);
                assert(upto.drop_last() =~= items@.subrange(0, i as int));
                assert(upto.last() == items@[i as int]);
                let h = &items[i];
                if h.get("name").is_none() {
                    r.push(missing_field(i + 1, "name"));
                }
                if h.get("commands").is_none() {
                    r.push(missing_field(i + 1, "commands"));
                }
                assert(r.deep_view() =~= before + hook_entry_warnings(items@[i as int], (i + 1) as nat));
                i = i + 1;
            }
            assert(items@.subrange(0, items@.len() as int) =~= items@);
        },
        _ => {},
    }
    r
}

/// The warnings for a configuration document, in the order reported.
pub fn validate_config(config: &JsonValue) -> (r: Vec<String>)
    ensures
        r.deep_view() == config_warnings(*config),
{
    let mut r = format_mode_check(config);
    let mut part = flag_check(config, "emoji_enabled");
    r.append(&mut part);
    let mut part = flag_check(config, "require_conventional");
    r.append(&mut part);
    let mut part = section_check(config, "log");
    r.append(&mut part);
    let mut part = section_check(config, "tlog");
    r.append(&mut part);
    let mut part = hooks_check(config);
    r.append(&mut part);
    assert(r.deep_view() =~= config_warnings(*config));
    r
}

/// A warning as reported: `Config warning: <w>` behind the warning sign.
pub open spec fn warning_line(w: Seq<char>) -> Seq<char> {
    marked(Color::YELLOW@, "⚠"@, "Config warning: "@ + w)
}

/// The report of a text that is not JSON.
pub open spec fn invalid_json_line(message: Seq<char>) -> Seq<char> {
    marked(Color::RED@, "✗"@, "Invalid JSON in gut.config.json: "@ + message)
}

/// A configuration in use, and the lines to report on the error stream.
pub struct LoadedConfig {
    pub config: JsonValue,
    pub diagnostics: Vec<String>,
}

/// What a load yields from the parser's result: the document with one line
/// per validation warning, or an empty document with the parse error and a
/// note that defaults are in effect.
pub fn config_from_parsed(parsed: Result<JsonValue, String>) -> (r: LoadedConfig)
    ensures
        match parsed {
            Ok(v) => r.config == v && r.diagnostics.deep_view() == config_warnings(v).map_values(
                |w: Seq<char>| warning_line(w),
            ),
            Err(e) => {
                &&& r.config is Object
                &&& r.config->Object_0@.len() == 0
                &&& r.diagnostics.deep_view() == seq![
                    invalid_json_line(e@),
                    "Using default configuration."@,
                ]
            },
        },
{
    match parsed {
        Ok(v) => {
            let warnings = validate_config(&v);
            let mut lines: Vec<String> = Vec::new();
            let mut i: usize = 0;
            while i < warnings.len()
                invariant
                    i <= warnings@.len(),
                    warnings.deep_view() == config_warnings(v),
                    lines.deep_view() == warnings.deep_view().subrange(0, i as int).map_values(
                        |w: Seq<char>| warning_line(w),
                    ),
                decreases warnings@.len() - i,
            {
                let ghost before = lines.deep_view();
                let mut text = String::from_str("Config warning: ");
                text.append(warnings[i].as_str());
                lines.push(warning(text.as_str()));
                assert(lines.deep_view() =~= before.push(warning_line(warnings@[i as int]@)));
                i = i + 1;
                assert(lines.deep_view() =~= warnings.deep_view().subrange(0, i as int).map_values(
                    |w: Seq<char>| warning_line(w),
                ));
            }
            assert(warnings.deep_view().subrange(0, i as int) =~= warnings.deep_view());
            LoadedConfig { config: v, diagnostics: lines }
        },
        Err(e) => {
            let mut text = String::from_str("Invalid JSON in gut.config.json: ");
            text.append(e.as_str());
            let mut lines: Vec<String> = Vec::new();
            lines.push(error(text.as_str()));
            lines.push(String::from_str("Using default configuration."));
            assert(lines.deep_view() =~= seq![
                invalid_json_line(e@),
                "Using default configuration."@,
            ]);
            LoadedConfig { config: JsonValue::Object(Vec::new()), diagnostics: lines }
        },
    }
}

/// Parses the text of a configuration file and validates it.
pub fn config_from_text(text: &str) -> (r: LoadedConfig)
    ensures
        match parsed(text@) {
            Ok(v) => r.config == v && r.diagnostics.deep_view() == config_warnings(v).map_values(
                |w: Seq<char>| warning_line(w),
            ),
            Err(e) => {
                &&& r.config is Object
                &&& r.config->Object_0@.len() == 0
                &&& r.diagnostics.deep_view() == seq![
                    invalid_json_line(e),
                    "Using default configuration."@,
                ]
            },
        },
{
    config_from_parsed(parse_json(text))
}

/// An optional value is absent, or is one of two accepted strings.
pub open spec fn absent_or_one_of(v: Option<JsonValue>, a: Seq<char>, b: Seq<char>) -> bool {
    match v {
        Some(JsonValue::Str(s)) => s@ == a || s@ == b,
        Some(_) => false,
        None => true,
    }
}

pub open spec fn absent_or_bool(v: Option<JsonValue>) -> bool {
    match v {
        Some(x) => x is Bool,
        None => true,
    }
}

pub open spec fn absent_or_count(v: Option<JsonValue>) -> bool {
    match v {
        Some(x) => x is Number && x->Number_0 is Some,
        None => true,
    }
}

pub open spec fn section_conforms(c: JsonValue, section: Seq<char>) -> bool {
    &&& absent_or_count(nested(c, section, "count"@))
    &&& absent_or_one_of(nested(c, section, "info"@), "less"@, "more"@)
}

pub open spec fn hooks_conform(c: JsonValue) -> bool {
    match field(c, "hooks"@) {
        Some(JsonValue::Array(items)) => forall|i: int|
            0 <= i < items@.len() ==> field(#[trigger] items@[i], "name"@) is Some && field(
                items@[i],
                "commands"@,
            ) is Some,
        _ => true,
    }
}

/// None of the conditions that validation reports holds of `c`.
pub open spec fn conforms(c: JsonValue) -> bool {
    &&& absent_or_one_of(nested(c, "commit"@, "format_mode"@), "upper_case"@, "lower_case"@)
    &&& absent_or_bool(nested(c, "commit"@, "emoji_enabled"@))
    &&& absent_or_bool(nested(c, "commit"@, "require_conventional"@))
    &&& section_conforms(c, "log"@)
    &&& section_conforms(c, "tlog"@)
    &&& hooks_conform(c)
}

proof fn lemma_hook_list_quiet(items: Seq<JsonValue>)
    ensures
        hook_list_warnings(items).len() == 0 <==> forall|i: int|
            0 <= i < items.len() ==> field(#[trigger] items[i], "name"@) is Some && field(
                items[i],
                "commands"@,
            ) is Some,
    decreases items.len(),
{
    if items.len() > 0 {
        let pre = items.drop_last();
        lemma_hook_list_quiet(pre);
        assert forall|i: int| 0 <= i < pre.len() implies #[trigger] pre[i] == items[i] by {}
        if hook_list_warnings(items).len() == 0 {
            assert forall|i: int| 0 <= i < items.len() implies field(#[trigger] items[i], "name"@) is Some
                && field(items[i], "commands"@) is Some by {
                if i < pre.len() {
                    assert(pre[i] == items[i]);
                }
            }
        }
        if forall|i: int|
            0 <= i < items.len() ==> field(#[trigger] items[i], "name"@) is Some && field(
                items[i],
                "commands"@,
            ) is Some {
            assert(field(items[items.len() - 1], "name"@) is Some);
            assert(field(items[items.len() - 1], "commands"@) is Some);
        }
    }
}

/// Validation reports nothing exactly when none of its conditions holds:
/// every checked member is absent or well formed, and every hook entry has
/// a `name` and `commands`.
pub proof fn lemma_no_warnings_iff_conforms(c: JsonValue)
    ensures
        config_warnings(c).len() == 0 <==> conforms(c),
{
    match field(c, "hooks"@) {
        Some(JsonValue::Array(items)) => lemma_hook_list_quiet(items@),
        _ => {},
    }
}

} // verus!
