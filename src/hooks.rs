//! Hook scripts generated from the `hooks` declarations of a configuration,
//! and the decision of which hook files to (re)write.
use vstd::prelude::*;
use crate::config::{hooks_warnings, hook_entry_warnings, hook_list_warnings, missing_field_text};
use crate::json::{field, text_of, JsonValue};

verus! {

/// The guard that ends the hook early, with success, when the condition fails.
pub open spec fn guard_text(condition: Seq<char>) -> Seq<char> {
    if condition.len() == 0 {
        seq![]
    } else {
        "if ! ("@ + condition + "); then exit 0; fi\n"@
    }
}

/// A string command on a line of its own; other values give nothing.
pub open spec fn command_line(v: JsonValue) -> Seq<char> {
    match v {
        JsonValue::Str(s) => s@ + "\n"@,
        _ => seq![],
    }
}

pub open spec fn command_text(commands: Seq<JsonValue>) -> Seq<char>
    decreases commands.len(),
{
    if commands.len() == 0 {
        seq![]
    } else {
        command_text(commands.drop_last()) + command_line(commands.last())
    }
}

/// The body of a hook script: interpreter line, strict mode, the optional
/// guard, then each command in order.
pub open spec fn script_text(condition: Seq<char>, commands: Seq<JsonValue>) -> Seq<char> {
    "#!/bin/sh\nset -e\n"@ + guard_text(condition) + command_text(commands)
}

/// The `condition` of a hook declaration, empty when it is not a string.
pub open spec fn condition_of(h: JsonValue) -> Seq<char> {
    match text_of(field(h, "condition"@)) {
        Some(c) => c,
        None => seq![],
    }
}

/// The file a hook declaration yields, as (name, script); none unless it
/// has a string `name` and an array `commands`.
pub open spec fn hook_file_of(h: JsonValue) -> Seq<(Seq<char>, Seq<char>)> {
    match text_of(field(h, "name"@)) {
        Some(n) => match field(h, "commands"@) {
            Some(JsonValue::Array(cs)) => seq![(n, script_text(condition_of(h), cs@))],
            _ => seq![],
        },
        None => seq![],
    }
}

pub open spec fn hook_list_files(items: Seq<JsonValue>) -> Seq<(Seq<char>, Seq<char>)>
    decreases items.len(),
{
    if items.len() == 0 {
        seq![]
    } else {
        hook_list_files(items.drop_last()) + hook_file_of(items.last())
    }
}

/// The hook files a configuration declares, in order, as (name, script).
pub open spec fn hook_files_of(c: JsonValue) -> Seq<(Seq<char>, Seq<char>)> {
    match field(c, "hooks"@) {
        Some(JsonValue::Array(items)) => hook_list_files(items@),
        _ => seq![],
    }
}

/// A hook file to provision.
pub struct HookFile {
    pub name: String,
    pub script: String,
}

pub open spec fn file_view(f: HookFile) -> (Seq<char>, Seq<char>) {
    (f.name@, f.script@)
}

/// The script for a hook with this condition and these commands.
pub fn hook_script(condition: &str, commands: &Vec<JsonValue>) -> (r: String)
    ensures
        r@ == script_text(condition@, commands@),
{
    let mut s = String::from_str("#!/bin/sh\nset -e\n");
    if condition.unicode_len() > 0 {
        s.append("if ! (");
        s.append(condition);
        s.append("); then exit 0; fi\n");
    }
    proof {
        reveal_strlit("");
    }
    let ghost head = s@;
    assert(head == "#!/bin/sh\nset -e\n"@ + guard_text(condition@));
    let mut i: usize = 0;
    assert(commands@.subrange(0, 0) =~= Seq::<JsonValue>::empty());
    while i < commands.len()
        invariant
            i <= commands@.len(),
            s@ == head + command_text(commands@.subrange(0, i as int)),
        decreases commands@.len() - i,
    {
        let ghost upto = commands@.subrange(0, i + 1);
        assert(upto.drop_last() =~= commands@.subrange(0, i as int));
        assert(upto.last() == commands@[i as int]);
        if let Some(text) = commands[i].as_str() {
            s.append(text);
            s.append("\n");
        }
        i = i + 1;
        assert(s@ =~= head + command_text(commands@.subrange(0, i as int)));
    }
    assert(commands@.subrange(0, i as int) =~= commands@);
    s
}

fn hook_file(h: &JsonValue) -> (r: Option<HookFile>)
    ensures
        match r {
            Some(f) => hook_file_of(*h) == seq![file_view(f)],
            None => hook_file_of(*h) == Seq::<(Seq<char>, Seq<char>)>::empty(),
        },
{
    let name = match h.get("name") {
        Some(v) => v.as_str(),
        None => None,
    };
    let name = match name {
        Some(n) => n,
        None => {
            return None;
        },
    };
    match h.get("commands") {
        Some(JsonValue::Array(cs)) => {
            let condition = match h.get("condition") {
                Some(v) => match v.as_str() {
                    Some(c) => c,
                    None => "",
                },
                None => "",
            };
            proof {
                reveal_strlit("");
            }
            assert(condition@ == condition_of(*h));
            let script = hook_script(condition, cs);
            let f = HookFile { name: String::from_str(name), script };
            assert(hook_file_of(*h) =~= seq![file_view(f)]);
            Some(f)
        },
        _ => None,
    }
}

/// The hook files that a configuration declares, in declaration order.
/// Entries without a string `name` or an array `commands` are skipped.
pub fn hook_files(config: &JsonValue) -> (r: Vec<HookFile>)
    ensures
        r@.map_values(|f: HookFile| file_view(f)) == hook_files_of(*config),
{
    let mut r: Vec<HookFile> = Vec::new();
    match config.get("hooks") {
        Some(JsonValue::Array(items)) => {
            let mut i: usize = 0;
            assert(items@.subrange(0, 0) =~= Seq::<JsonValue>::empty());
            assert(r@.map_values(|f: HookFile| file_view(f)) =~= Seq::<(Seq<char>, Seq<char>)>::empty());
            while i < items.len()
                invariant
                    i <= items@.len(),
                    r@.map_values(|f: HookFile| file_view(f)) == hook_list_files(
                        items@.subrange(0, i as int),
                    ),
                decreases items@.len() - i,
            {
                let ghost before = r@.map_values(|f: HookFile| file_view(f));
                let ghost upto = items@.subrange(0, i + 1);
                assert(upto.drop_last() =~= items@.subrange(0, i as int));
                assert(upto.last() == items@[i as int]);
                match hook_file(&items[i]) {
                    Some(f) => {
                        r.push(f);
                        assert(r@.map_values(|f: HookFile| file_view(f)) =~= before + hook_file_of(
                            items@[i as int],
                        ));
                    },
                    None => {
                        assert(r@.map_values(|f: HookFile| file_view(f)) =~= before + hook_file_of(
                            items@[i as int],
                        ));
                    },
                }
                i = i + 1;
            }
            assert(items@.subrange(0, items@.len() as int) =~= items@);
        },
        _ => {},
    }
    r
}

/// Whether a hook file must be written: it is missing, or what is on disk
/// differs from the script.
pub open spec fn is_stale(existing: Option<Seq<char>>, script: Seq<char>) -> bool {
    match existing {
        Some(e) => e != script,
        None => true,
    }
}

/// Whether a hook file must be written, given what is on disk (`None` when
/// the file is missing or cannot be read).
pub fn needs_write(existing: Option<&str>, script: &str) -> (r: bool)
    ensures
        r == is_stale(
            match existing {
                Some(e) => Some(e@),
                None => None,
            },
            script@,
        ),
{
    match existing {
        Some(e) => !crate::json::same_text(e, script),
        None => true,
    }
}

/// The content of a hook file on disk, by name, if it is there.
pub open spec fn on_disk(disk: Map<Seq<char>, Seq<char>>, name: Seq<char>) -> Option<Seq<char>> {
    if disk.contains_key(name) {
        Some(disk[name])
    } else {
        None
    }
}

/// The hook files on disk after provisioning `files` in order, writing each
/// stale one.
pub open spec fn synced(
    disk: Map<Seq<char>, Seq<char>>,
    files: Seq<(Seq<char>, Seq<char>)>,
) -> Map<Seq<char>, Seq<char>>
    decreases files.len(),
{
    if files.len() == 0 {
        disk
    } else {
        let d = synced(disk, files.drop_last());
        let (n, s) = files.last();
        if is_stale(on_disk(d, n), s) {
            d.insert(n, s)
        } else {
            d
        }
    }
}

/// The number of writes that provisioning `files` in order performs.
pub open spec fn sync_writes(
    disk: Map<Seq<char>, Seq<char>>,
    files: Seq<(Seq<char>, Seq<char>)>,
) -> nat
    decreases files.len(),
{
    if files.len() == 0 {
        0
    } else {
        let d = synced(disk, files.drop_last());
        let (n, s) = files.last();
        sync_writes(disk, files.drop_last()) + if is_stale(on_disk(d, n), s) {
            1nat
        } else {
            0nat
        }
    }
}

/// Two files with one name have one script.
pub open spec fn names_agree(files: Seq<(Seq<char>, Seq<char>)>) -> bool {
    forall|i: int, j: int|
        0 <= i < files.len() && 0 <= j < files.len() && files[i].0 == files[j].0 ==> files[i].1
            == files[j].1
}

proof fn lemma_synced_holds_all(disk: Map<Seq<char>, Seq<char>>, files: Seq<(Seq<char>, Seq<char>)>)
    requires
        names_agree(files),
    ensures
        forall|i: int|
            0 <= i < files.len() ==> on_disk(synced(disk, files), #[trigger] files[i].0) == Some(
                files[i].1,
            ),
    decreases files.len(),
{
    if files.len() > 0 {
        let pre = files.drop_last();
        assert(names_agree(pre));
        lemma_synced_holds_all(disk, pre);
        let d = synced(disk, pre);
        let (n, s) = files.last();
        assert forall|i: int| 0 <= i < files.len() implies on_disk(
            synced(disk, files),
            #[trigger] files[i].0,
        ) == Some(files[i].1) by {
            if i < files.len() - 1 {
                assert(pre[i] == files[i]);
                if files[i].0 == n {
                    assert(files[i].1 == s);
                }
            }
        }
    }
}

proof fn lemma_sync_settled(disk: Map<Seq<char>, Seq<char>>, files: Seq<(Seq<char>, Seq<char>)>)
    requires
        forall|i: int| 0 <= i < files.len() ==> on_disk(disk, #[trigger] files[i].0) == Some(files[i].1),
    ensures
        synced(disk, files) == disk,
        sync_writes(disk, files) == 0,
    decreases files.len(),
{
    if files.len() > 0 {
        let pre = files.drop_last();
        assert forall|i: int| 0 <= i < pre.len() implies on_disk(disk, #[trigger] pre[i].0) == Some(
            pre[i].1,
        ) by {
            assert(pre[i] == files[i]);
        }
        lemma_sync_settled(disk, pre);
        assert(on_disk(disk, files[files.len() - 1].0) == Some(files[files.len() - 1].1));
    }
}

/// Provisioning twice in a row from one configuration leaves the hook files
/// as the first run left them, and the second run writes nothing, provided
/// that declarations sharing a name yield the same script.
pub proof fn lemma_sync_idempotent(config: JsonValue, disk: Map<Seq<char>, Seq<char>>)
    requires
        names_agree(hook_files_of(config)),
    ensures
        synced(synced(disk, hook_files_of(config)), hook_files_of(config)) == synced(
            disk,
            hook_files_of(config),
        ),
        sync_writes(synced(disk, hook_files_of(config)), hook_files_of(config)) == 0,
{
    let files = hook_files_of(config);
    lemma_synced_holds_all(disk, files);
    lemma_sync_settled(synced(disk, files), files);
}

/// The entries of a configuration's `hooks` array; empty when it has none.
pub open spec fn hook_items(c: JsonValue) -> Seq<JsonValue> {
    match field(c, "hooks"@) {
        Some(JsonValue::Array(items)) => items@,
        _ => seq![],
    }
}

proof fn lemma_list_reports(items: Seq<JsonValue>, k: int, w: Seq<char>)
    requires
        0 <= k < items.len(),
        hook_entry_warnings(items[k], (k + 1) as nat).contains(w),
    ensures
        hook_list_warnings(items).contains(w),
    decreases items.len(),
{
    let pre = items.drop_last();
    let before = hook_list_warnings(pre);
    if k == items.len() - 1 {
        let ws = hook_entry_warnings(items[k], (k + 1) as nat);
        let i = choose|i: int| 0 <= i < ws.len() && #[trigger] ws[i] == w;
        assert(hook_list_warnings(items) == before + ws);
        assert(hook_list_warnings(items)[before.len() + i] == w);
    } else {
        assert(pre[k] == items[k]);
        lemma_list_reports(pre, k, w);
        let i = choose|i: int| 0 <= i < before.len() && #[trigger] before[i] == w;
        assert(hook_list_warnings(items)[i] == w);
    }
}

/// A hook entry without `commands` yields no hook file, and validation
/// reports it with its 1-based position.
pub proof fn lemma_missing_commands_skipped_and_reported(config: JsonValue, k: int)
    requires
        0 <= k < hook_items(config).len(),
        field(hook_items(config)[k], "commands"@) is None,
    ensures
        hook_file_of(hook_items(config)[k]).len() == 0,
        hooks_warnings(config).contains(missing_field_text((k + 1) as nat, "commands"@)),
{
    let items = hook_items(config);
    let w = missing_field_text((k + 1) as nat, "commands"@);
    let ws = hook_entry_warnings(items[k], (k + 1) as nat);
    assert(ws[ws.len() - 1] == w);
    lemma_list_reports(items, k, w);
}

} // verus!
