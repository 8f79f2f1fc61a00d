//! What the desktop-control server promises of its words and its tools.
use vstd::prelude::*;
use crate::json::{Json, i64_of, keys_of, lemma_field_of_absent, str_of};
use crate::mcp::{SplitState, ToolKind, all_tools, spec_shell_words, split_run, split_step};
use crate::mcp_calls::{ToolCall, accepts_arguments, spec_reply_text};
use crate::mcp_tools::{
    argument_type, input_schema, is_tool_definition, lists_all_tools, required_of, tool_required,
};

verus! {

proof fn lemma_split_words_nonempty(s: Seq<char>)
    ensures
        forall|i: int| 0 <= i < split_run(s).out.len() ==> #[trigger] split_run(s).out[i].len() > 0,
    decreases s.len(),
{
    if s.len() > 0 {
        lemma_split_words_nonempty(s.drop_last());
        let st = split_run(s.drop_last());
        let nx = split_step(st, s.last());
        assert forall|i: int| 0 <= i < nx.out.len() implies #[trigger] nx.out[i].len() > 0 by {
            if i < st.out.len() {
                assert(nx.out[i] == st.out[i]);
            }
        }
    }
}

/// Splitting a command line never yields an empty word.
pub proof fn law_shell_words_nonempty(s: Seq<char>)
    ensures
        spec_shell_words(s) matches Some(words) ==> forall|i: int|
            0 <= i < words.len() ==> #[trigger] words[i].len() > 0,
{
    lemma_split_words_nonempty(s);
    let st = split_run(s);
    if let Some(words) = spec_shell_words(s) {
        assert forall|i: int| 0 <= i < words.len() implies #[trigger] words[i].len() > 0 by {
            if i < st.out.len() {
                assert(words[i] == st.out[i]);
            }
        }
    }
}

/// Every tool the server lists can be called by the name it is listed under.
pub proof fn law_listed_tools_are_callable()
    ensures
        forall|i: int|
            0 <= i < all_tools().len() ==> ToolKind::spec_from_name(#[trigger] all_tools()[i].spec_name())
                == Some(all_tools()[i]),
{
    reveal_strlit("screenshot");
    reveal_strlit("xdo_click");
    reveal_strlit("xdo_move");
    reveal_strlit("xdo_hover");
    reveal_strlit("xdo_type");
    reveal_strlit("xdo_key");
    reveal_strlit("launch_app");
    reveal_strlit("list_windows");
    reveal_strlit("focus_window");
    // names differ in length or at the fifth character
    assert("xdo_click"@[4] != "xdo_type"@[4]);
    assert("xdo_move"@[4] != "xdo_type"@[4]);
    assert("xdo_move"@[4] != "xdo_click"@[4]);
    assert("xdo_hover"@[4] != "xdo_click"@[4]);
    assert("xdo_key"@.len() != "xdo_type"@.len());
    assert("xdo_hover"@[4] != "xdo_type"@[4]);
    assert("xdo_move"@[4] != "xdo_hover"@[4]);
    assert("xdo_key"@[4] != "xdo_move"@[4]);
    assert("screenshot"@[0] != "xdo_click"@[0]);
    assert("screenshot"@[0] != "launch_app"@[0]);
    assert("screenshot"@[0] != "list_windows"@[0]);
    assert("screenshot"@[0] != "focus_window"@[0]);
    assert("launch_app"@[1] != "list_windows"@[1]);
    assert("launch_app"@[0] != "focus_window"@[0]);
    assert("list_windows"@[0] != "focus_window"@[0]);
    assert("launch_app"@[0] != "xdo_move"@[0]);
    assert("list_windows"@[0] != "xdo_move"@[0]);
    assert("focus_window"@[0] != "xdo_move"@[0]);
    assert("screenshot"@[0] != "xdo_move"@[0]);
    assert forall|i: int|
        0 <= i < all_tools().len() implies ToolKind::spec_from_name(
        #[trigger] all_tools()[i].spec_name(),
    ) == Some(all_tools()[i]) by {}
}

/// Whether `args` carries argument `name` with the JSON type `ty`, as the
/// argument reader takes it: an integer that fits an `i64`, or a string.
pub open spec fn supplies(args: Json, name: Seq<char>, ty: Seq<char>) -> bool {
    if ty == "integer"@ {
        i64_of(args.spec_get(name)) is Some
    } else if ty == "string"@ {
        str_of(args.spec_get(name)) is Some
    } else {
        args.spec_get(name) is Some
    }
}

/// The arguments a definition marks required are the ones it lists there.
proof fn lemma_required_of(d: Json, k: ToolKind)
    requires
        is_tool_definition(d, k),
    ensures
        required_of(d) == tool_required(k),
{
    let s = input_schema(d)->0;
    if tool_required(k).len() == 0 {
        if let Json::Object(f) = s {
            reveal_strlit("type");
            reveal_strlit("properties");
            reveal_strlit("required");
            assert(keys_of(f@) == seq!["type"@, "properties"@]);
            assert("required"@[0] != "type"@[0]);
            assert("required"@[0] != "properties"@[0]);
            assert(!keys_of(f@).contains("required"@));
            lemma_field_of_absent(f@, "required"@);
        }
    }
}

/// A tool call's arguments are read exactly when the call supplies every
/// argument the listed definition of the tool marks required, with the
/// type the definition gives it; a launch's command line must also split
/// into at least one word.
pub proof fn law_required_arguments_decide_acceptance(defs: Json, i: int, args: Json)
    requires
        lists_all_tools(defs),
        0 <= i < all_tools().len(),
    ensures
        ({
            let d = defs->Array_0@[i];
            let k = all_tools()[i];
            accepts_arguments(k, args) <==> ((forall|j: int|
                0 <= j < required_of(d).len() ==> #[trigger] supplies(
                    args,
                    required_of(d)[j],
                    argument_type(d, required_of(d)[j]),
                )) && (k == ToolKind::LaunchApp ==> (str_of(args.spec_get("command"@)) matches Some(
                c,
            ) ==> (spec_shell_words(c) matches Some(w) && w.len() > 0))))
        }),
{
    let d = defs->Array_0@[i];
    let k = all_tools()[i];
    assert(is_tool_definition(d, k));
    lemma_required_of(d, k);
    let req = required_of(d);
    reveal_strlit("integer");
    reveal_strlit("string");
    assert("integer"@[0] != "string"@[0]);
    let holds = forall|j: int|
        0 <= j < req.len() ==> #[trigger] supplies(args, req[j], argument_type(d, req[j]));
    if req.len() == 2 {
        assert(holds <==> (supplies(args, req[0], argument_type(d, req[0])) && supplies(
            args,
            req[1],
            argument_type(d, req[1]),
        ))) by {
            if supplies(args, req[0], argument_type(d, req[0])) && supplies(
                args,
                req[1],
                argument_type(d, req[1]),
            ) {
                assert forall|j: int| 0 <= j < req.len() implies #[trigger] supplies(
                    args,
                    req[j],
                    argument_type(d, req[j]),
                ) by {}
            }
        }
    } else if req.len() == 1 {
        assert(holds <==> supplies(args, req[0], argument_type(d, req[0])));
    }
}

proof fn lemma_split_quoted(q: char, w: Seq<char>, i: int)
    requires
        q == '\'' || q == '"',
        !w.contains(q),
        0 <= i <= w.len(),
    ensures
        split_run(seq![q] + w.take(i)) == (SplitState { quote: Some(q), cur: w.take(i), out: seq![] }),
    decreases i,
{
    if i == 0 {
        let s = seq![q] + w.take(0);
        assert(s =~= seq![q]);
        assert(s.drop_last() =~= Seq::<char>::empty());
        assert(s.last() == q);
        let init = split_run(Seq::<char>::empty());
        assert(init == (SplitState { quote: None, cur: seq![], out: seq![] }));
        assert(split_run(s) == split_step(init, q));
        assert(w.take(0) =~= Seq::<char>::empty());
    } else {
        lemma_split_quoted(q, w, i - 1);
        let s = seq![q] + w.take(i);
        assert(s.drop_last() =~= seq![q] + w.take(i - 1));
        assert(s.last() == w[i - 1]);
        assert(w[i - 1] != q);
        assert(w.take(i - 1).push(w[i - 1]) =~= w.take(i));
    }
}

/// Inside a quoted part only the quote character that opened it closes it:
/// every other character, whitespace and the other quote character
/// included, joins the word. So a quoted part with no quote of its own kind
/// inside is one word, taken as it stands (no word at all when it is empty).
pub proof fn law_quoted_part_is_one_word(q: char, w: Seq<char>)
    requires
        q == '\'' || q == '"',
        !w.contains(q),
    ensures
        spec_shell_words(seq![q] + w + seq![q]) == Some(
            if w.len() > 0 {
                seq![w]
            } else {
                Seq::<Seq<char>>::empty()
            },
        ),
{
    lemma_split_quoted(q, w, w.len() as int);
    let s = seq![q] + w + seq![q];
    assert(w.take(w.len() as int) =~= w);
    assert(s.drop_last() =~= seq![q] + w);
    assert(s.last() == q);
    if w.len() > 0 {
        assert(Seq::<Seq<char>>::empty().push(w) =~= seq![w]);
    }
}

/// A `list_windows` call replies with exactly what `wmctrl -l` printed.
pub proof fn law_list_windows_replies_with_the_listing(output: Seq<char>, pid: Option<u32>)
    ensures
        spec_reply_text(ToolCall::ListWindows, output, pid) == output,
{
}

} // verus!
