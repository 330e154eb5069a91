//! Which external editor to run for a description, and with which
//! arguments.

use vstd::prelude::*;

use crate::text::{chars_of, is_ws, is_ws_exec, string_of, strings_of};

verus! {

/// The editor to run: `$EDITOR`, else `$VISUAL`, else `vi`.
pub open spec fn editor_choice(editor: Option<Seq<char>>, visual: Option<Seq<char>>) -> Seq<char> {
    match editor {
        Some(e) => e,
        None => match visual {
            Some(v) => v,
            None => "vi"@,
        },
    }
}

/// The editor to run, from the values of `$EDITOR` and `$VISUAL` (`None`
/// when unset).
pub fn choose_editor(editor: Option<String>, visual: Option<String>) -> (r: String)
    ensures
        r@ == editor_choice(
            match editor {
                Some(e) => Some(e@),
                None => None,
            },
            match visual {
                Some(v) => Some(v@),
                None => None,
            },
        ),
{
    match editor {
        Some(e) => e,
        None => match visual {
            Some(v) => v,
            None => String::from_str("vi"),
        },
    }
}

/// The whitespace-separated words of `s`.
pub open spec fn words(s: Seq<char>) -> Seq<Seq<char>>
    decreases s.len(),
{
    if s.len() == 0 {
        Seq::empty()
    } else {
        let w = words(s.drop_last());
        let c = s.last();
        if is_ws(c) {
            w
        } else if s.len() > 1 && !is_ws(s[s.len() - 2]) {
            w.update(w.len() - 1, w.last().push(c))
        } else {
            w.push(seq![c])
        }
    }
}

/// How `$EDITOR` (or its fallback) is run: its first word is the program
/// and the other words its arguments (as in `code --wait`); an editor
/// setting with no word at all is an error.
pub open spec fn editor_command_spec(var: Seq<char>) -> Option<(Seq<char>, Seq<Seq<char>>)> {
    let w = words(var);
    if w.len() == 0 {
        None
    } else {
        Some((w[0], w.drop_first()))
    }
}

/// The program and arguments that run the editor setting `var`; `Err` with
/// the message shown to the user when it has no word.
pub fn editor_command(var: &str) -> (r: Result<(String, Vec<String>), String>)
    ensures
        match r {
            Ok((p, args)) => editor_command_spec(var@) == Some((p@, strings_of(args@))),
            Err(m) => editor_command_spec(var@) is None && m@ == "$EDITOR is empty"@,
        },
{
    let v = chars_of(var);
    let mut ws: Vec<String> = Vec::new();
    let mut cur: Vec<char> = Vec::new();
    let mut i: usize = 0;
    while i < v.len()
        invariant
            v@ == var@,
            i <= v@.len(),
            i > 0 && !is_ws(v@[i - 1]) ==> cur@.len() > 0 && strings_of(ws@).push(cur@) == words(
                v@.take(i as int),
            ),
            !(i > 0 && !is_ws(v@[i - 1])) ==> cur@.len() == 0 && strings_of(ws@) == words(
                v@.take(i as int),
            ),
        decreases v@.len() - i,
    {
        let c = v[i];
        let ghost pre = v@.take(i as int);
        assert(v@.take(i + 1).drop_last() =~= pre);
        assert(v@.take(i + 1).last() == c);
        if is_ws_exec(c) {
            if cur.len() > 0 {
                let w = string_of(&cur);
                let ghost before = ws@;
                ws.push(w);
                assert(strings_of(ws@) =~= strings_of(before).push(cur@));
                cur = Vec::new();
            }
        } else {
            let ghost before = cur@;
            cur.push(c);
            proof {
                if i > 0 && !is_ws(v@[i - 1]) {
                    assert(pre.len() > 1 ==> pre[pre.len() - 1] == v@[i - 1]);
                    assert(v@.take(i + 1)[(i + 1) - 2] == v@[i - 1]);
                    let w0 = words(pre);
                    assert(strings_of(ws@).push(cur@) =~= w0.update(w0.len() - 1, w0.last().push(c)));
                } else {
                    if i > 0 {
                        assert(v@.take(i + 1)[(i + 1) - 2] == v@[i - 1]);
                    }
                    assert(before =~= Seq::<char>::empty());
                    assert(cur@ =~= seq![c]);
                }
            }
        }
        i += 1;
    }
    if cur.len() > 0 {
        let w = string_of(&cur);
        let ghost before = ws@;
        ws.push(w);
        assert(strings_of(ws@) =~= strings_of(before).push(cur@));
    }
    assert(v@.take(v@.len() as int) =~= v@);
    if ws.len() == 0 {
        return Err(String::from_str("$EDITOR is empty"));
    }
    let program = ws.remove(0);
    assert(strings_of(ws@) =~= words(var@).drop_first());
    Ok((program, ws))
}

} // verus!
