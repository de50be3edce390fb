//! The command recognizer: which message bodies are a `spawn` command, and
//! which label such a command carries.
//!
//! The grammar is stated twice. [`conforms`] says what a command is, as
//! plainly as the grammar can be written down. [`spec_recognize`] says how a
//! body is taken apart. [`lemma_recognize_conforms`] proves that the two agree.

use vstd::prelude::*;
use vstd::string::*;
use crate::model::{CommandMatch, CommandMatchView};
use crate::text::{chars_of, matches_at};

verus! {

/// The three spellings of the namespace that `spawn` may be called from.
pub open spec fn is_namespace(ns: Seq<char>) -> bool {
    ns == "tokio::"@ || ns == "thread::"@ || ns == "std::thread::"@
}

/// What may follow the keyword.
pub ghost enum CallForm {
    /// Nothing: `tokio::spawn`.
    Bare,
    /// An empty argument list: `tokio::spawn()`.
    EmptyCall,
    /// One string literal, holding the label: `tokio::spawn("label")`.
    Labelled(Seq<char>),
}

/// The text that follows the keyword in each form.
pub open spec fn call_text(form: CallForm) -> Seq<char> {
    match form {
        CallForm::Bare => Seq::empty(),
        CallForm::EmptyCall => "()"@,
        CallForm::Labelled(label) => "(\""@ + label + "\")"@,
    }
}

/// The command written out: namespace, keyword, call.
pub open spec fn command_text(ns: Seq<char>, form: CallForm) -> Seq<char> {
    ns + "spawn"@ + call_text(form)
}

/// `s` set between two backticks, as inline code.
pub open spec fn in_code_ticks(s: Seq<char>) -> Seq<char> {
    "`"@ + s + "`"@
}

/// `body` is the command of namespace `ns` and form `form`, written plainly
/// or as inline code.
pub open spec fn is_command(body: Seq<char>, ns: Seq<char>, form: CallForm) -> bool {
    &&& is_namespace(ns)
    &&& (body == command_text(ns, form) || body == in_code_ticks(command_text(ns, form)))
}

/// `body` is a command: the whole of it, with nothing before or after.
pub open spec fn conforms(body: Seq<char>) -> bool {
    exists|ns: Seq<char>, form: CallForm| is_command(body, ns, form)
}

/// `body` without its two backticks, where it begins and ends with one.
pub open spec fn strip_code_ticks(body: Seq<char>) -> Seq<char> {
    if body.len() >= 2 && body.first() == '`' && body.last() == '`' {
        body.subrange(1, body.len() - 1)
    } else {
        body
    }
}

/// The length of the namespace and keyword that `s` begins with, if it begins
/// with any.
pub open spec fn invocation_len(s: Seq<char>) -> Option<int> {
    if "tokio::spawn"@.is_prefix_of(s) {
        Some(12)
    } else if "thread::spawn"@.is_prefix_of(s) {
        Some(13)
    } else if "std::thread::spawn"@.is_prefix_of(s) {
        Some(18)
    } else {
        None
    }
}

/// The form that `rest`, the text behind the keyword, is written in.
pub open spec fn call_form(rest: Seq<char>) -> Option<CallForm> {
    if rest.len() == 0 {
        Some(CallForm::Bare)
    } else if rest == "()"@ {
        Some(CallForm::EmptyCall)
    } else if rest.len() >= 4 && rest.subrange(0, 2) == "(\""@ && rest.subrange(
        rest.len() - 2,
        rest.len() as int,
    ) == "\")"@ {
        Some(CallForm::Labelled(rest.subrange(2, rest.len() - 2)))
    } else {
        None
    }
}

/// The result for a body that is no command.
pub open spec fn no_match() -> CommandMatchView {
    CommandMatchView { explicit_label: None, matched: false }
}

/// The result for a command of form `form`.
pub open spec fn match_of(form: CallForm) -> CommandMatchView {
    CommandMatchView {
        explicit_label: match form {
            CallForm::Labelled(label) => Some(label),
            _ => None,
        },
        matched: true,
    }
}

/// What the recognizer returns for `body`.
pub open spec fn spec_recognize(body: Seq<char>) -> CommandMatchView {
    let s = strip_code_ticks(body);
    match invocation_len(s) {
        Some(n) => match call_form(s.skip(n)) {
            Some(form) => match_of(form),
            None => no_match(),
        },
        None => no_match(),
    }
}

/// The part of `chars` that remains once the two backticks are set aside.
fn code_span(chars: &Vec<char>) -> (span: (usize, usize))
    ensures
        span.0 <= span.1 <= chars.len(),
        chars@.subrange(span.0 as int, span.1 as int) == strip_code_ticks(chars@),
{
    let n: usize = chars.len();
    if n >= 2 && chars[0] == '`' && chars[n - 1] == '`' {
        (1, n - 1)
    } else {
        assert(chars@.subrange(0, n as int) =~= chars@);
        (0, n)
    }
}

/// Whether `chars[start..end]` begins with `word`.
fn begins_with(chars: &Vec<char>, start: usize, end: usize, word: &str) -> (b: bool)
    requires
        start <= end <= chars.len(),
    ensures
        b == word@.is_prefix_of(chars@.subrange(start as int, end as int)),
{
    let w = chars_of(word);
    if w.len() > end - start {
        return false;
    }
    assert(chars@.subrange(start as int, end as int).subrange(0, w.len() as int)
        =~= chars@.subrange(start as int, start + w.len()));
    matches_at(chars, &w, start)
}

/// The position in `chars[start..end]` just behind namespace and keyword.
fn invocation_end(chars: &Vec<char>, start: usize, end: usize) -> (after: Option<usize>)
    requires
        start <= end <= chars.len(),
    ensures
        match invocation_len(chars@.subrange(start as int, end as int)) {
            Some(n) => after == Some((start + n) as usize) && start + n <= end,
            None => after is None,
        },
{
    proof {
        reveal_strlit("tokio::spawn");
        reveal_strlit("thread::spawn");
        reveal_strlit("std::thread::spawn");
    }
    if begins_with(chars, start, end, "tokio::spawn") {
        Some(start + 12)
    } else if begins_with(chars, start, end, "thread::spawn") {
        Some(start + 13)
    } else if begins_with(chars, start, end, "std::thread::spawn") {
        Some(start + 18)
    } else {
        None
    }
}

/// The form of the call written in `chars[after..end]`: `None` where it is no
/// call, `Some(None)` for the two forms without a label, and for a labelled
/// call the positions between which the label stands.
fn call_form_in(chars: &Vec<char>, after: usize, end: usize) -> (found: Option<
    Option<(usize, usize)>,
>)
    requires
        after <= end <= chars.len(),
    ensures
        match call_form(chars@.subrange(after as int, end as int)) {
            None => found is None,
            Some(CallForm::Labelled(label)) => {
                &&& after + 2 <= end - 2
                &&& found == Some(Some(((after + 2) as usize, (end - 2) as usize)))
                &&& label == chars@.subrange(after + 2, end - 2)
            },
            Some(_) => found == Some(None::<(usize, usize)>),
        },
{
    let ghost rest = chars@.subrange(after as int, end as int);
    let len: usize = end - after;
    if len == 0 {
        return Some(None);
    }
    if len == 2 {
        assert(rest == "()"@ <==> rest[0] == '(' && rest[1] == ')') by {
            reveal_strlit("()");
            if rest[0] == '(' && rest[1] == ')' {
                assert(rest =~= "()"@);
            }
        }
        return if chars[after] == '(' && chars[after + 1] == ')' {
            Some(None)
        } else {
            None
        };
    }
    if len < 4 {
        assert(rest != "()"@) by {
            reveal_strlit("()");
        }
        return None;
    }
    let ghost open = rest.subrange(0, 2);
    let ghost close = rest.subrange(rest.len() - 2, rest.len() as int);
    assert(rest != "()"@) by {
        reveal_strlit("()");
    }
    assert(open == "(\""@ <==> rest[0] == '(' && rest[1] == '"') by {
        reveal_strlit("(\"");
        assert(open[0] == rest[0] && open[1] == rest[1]);
        if rest[0] == '(' && rest[1] == '"' {
            assert(open =~= "(\""@);
        }
    }
    assert(close == "\")"@ <==> rest[len - 2] == '"' && rest[len - 1] == ')') by {
        reveal_strlit("\")");
        assert(close[0] == rest[len - 2] && close[1] == rest[len - 1]);
        if rest[len - 2] == '"' && rest[len - 1] == ')' {
            assert(close =~= "\")"@);
        }
    }
    if chars[after] == '(' && chars[after + 1] == '"' && chars[end - 2] == '"' && chars[end - 1]
        == ')' {
        assert(rest.subrange(2, rest.len() - 2) =~= chars@.subrange(after + 2, end - 2));
        Some(Some((after + 2, end - 2)))
    } else {
        None
    }
}

/// Recognizes a command: `matched` says whether the whole of `body` is one,
/// `explicit_label` holds the label between its quotes where it has one,
/// character for character. A body that is no command gives no match and no
/// label.
pub fn recognize(body: &str) -> (m: CommandMatch)
    ensures
        m@ == spec_recognize(body@),
        m.matched <==> conforms(body@),
        m@.wf(),
{
    proof {
        lemma_recognize_conforms(body@);
    }
    let chars = chars_of(body);
    let (start, end) = code_span(&chars);
    let after: usize = match invocation_end(&chars, start, end) {
        Some(after) => after,
        None => {
            return CommandMatch { explicit_label: None, matched: false };
        },
    };
    assert(strip_code_ticks(body@).skip(after - start) =~= chars@.subrange(
        after as int,
        end as int,
    ));
    match call_form_in(&chars, after, end) {
        None => CommandMatch { explicit_label: None, matched: false },
        Some(None) => CommandMatch { explicit_label: None, matched: true },
        Some(Some((from, to))) => {
            let label = body.substring_char(from, to).to_owned();
            CommandMatch { explicit_label: Some(label), matched: true }
        },
    }
}

/// A command's call text is read back as the form it was written from.
pub proof fn lemma_call_form_of_call_text(form: CallForm)
    ensures
        call_form(call_text(form)) == Some(form),
{
    reveal_strlit("()");
    reveal_strlit("(\"");
    reveal_strlit("\")");
    match form {
        CallForm::Bare => {},
        CallForm::EmptyCall => {},
        CallForm::Labelled(label) => {
            let rest = call_text(form);
            assert(rest.len() == label.len() + 4);
            assert(rest[0] == '(' && rest[1] == '"');
            assert(rest != "()"@);
            assert(rest.subrange(0, 2) =~= "(\""@);
            assert(rest.subrange(rest.len() - 2, rest.len() as int) =~= "\")"@);
            assert(rest.subrange(2, rest.len() - 2) =~= label);
        },
    }
}

/// Every command is recognized, plain or between backticks, and the label
/// that comes back is the one it was written with: any text at all, quotes
/// and line breaks included, the empty text too.
pub proof fn lemma_recognize_command(ns: Seq<char>, form: CallForm)
    requires
        is_namespace(ns),
    ensures
        spec_recognize(command_text(ns, form)) == match_of(form),
        spec_recognize(in_code_ticks(command_text(ns, form))) == match_of(form),
{
    reveal_strlit("tokio::");
    reveal_strlit("thread::");
    reveal_strlit("std::thread::");
    reveal_strlit("spawn");
    reveal_strlit("tokio::spawn");
    reveal_strlit("thread::spawn");
    reveal_strlit("std::thread::spawn");
    reveal_strlit("`");
    lemma_call_form_of_call_text(form);
    let word = ns + "spawn"@;
    let text = command_text(ns, form);
    let n = word.len() as int;
    assert(text[0] == ns[0]);
    assert(text[1] == ns[1]);
    assert(strip_code_ticks(text) == text);
    let ticked = in_code_ticks(text);
    assert(ticked.first() == '`' && ticked.last() == '`');
    assert(strip_code_ticks(ticked) =~= text);
    assert(text.subrange(0, n) =~= word);
    assert(text.skip(n) =~= call_text(form));
    if ns == "tokio::"@ {
        assert(word =~= "tokio::spawn"@);
    } else if ns == "thread::"@ {
        assert(word =~= "thread::spawn"@);
        assert(!"tokio::spawn"@.is_prefix_of(text)) by {
            if "tokio::spawn"@.is_prefix_of(text) {
                assert(text.subrange(0, 12)[1] == 'o');
            }
        }
    } else {
        assert(word =~= "std::thread::spawn"@);
        assert(!"tokio::spawn"@.is_prefix_of(text)) by {
            if "tokio::spawn"@.is_prefix_of(text) {
                assert(text.subrange(0, 12)[0] == 't');
            }
        }
        assert(!"thread::spawn"@.is_prefix_of(text)) by {
            if "thread::spawn"@.is_prefix_of(text) {
                assert(text.subrange(0, 13)[0] == 't');
            }
        }
    }
}

/// The recognizer reports a match for the commands and for nothing else: a
/// body that is not one of the recognized shapes is never matched.
pub proof fn lemma_recognize_conforms(body: Seq<char>)
    ensures
        spec_recognize(body).matched <==> conforms(body),
        !conforms(body) ==> spec_recognize(body) == no_match(),
{
    if conforms(body) {
        let (ns, form) = choose|ns: Seq<char>, form: CallForm| is_command(body, ns, form);
        lemma_recognize_command(ns, form);
    }
    if spec_recognize(body).matched {
        reveal_strlit("tokio::");
        reveal_strlit("thread::");
        reveal_strlit("std::thread::");
        reveal_strlit("spawn");
        reveal_strlit("tokio::spawn");
        reveal_strlit("thread::spawn");
        reveal_strlit("std::thread::spawn");
        reveal_strlit("`");
        reveal_strlit("()");
        reveal_strlit("(\"");
        reveal_strlit("\")");
        let s = strip_code_ticks(body);
        let n = invocation_len(s)->0;
        let rest = s.skip(n);
        let form = call_form(rest)->0;
        let ns = s.subrange(0, n - 5);
        let head = s.subrange(0, n);
        assert(forall|i: int| 0 <= i < n ==> s[i] == head[i]);
        assert(is_namespace(ns)) by {
            if n == 12 {
                assert(ns =~= "tokio::"@);
            } else if n == 13 {
                assert(ns =~= "thread::"@);
            } else {
                assert(ns =~= "std::thread::"@);
            }
        }
        assert(head =~= ns + "spawn"@);
        assert(rest =~= call_text(form)) by {
            match form {
                CallForm::Bare => {},
                CallForm::EmptyCall => {},
                CallForm::Labelled(label) => {
                    let open = rest.subrange(0, 2);
                    let close = rest.subrange(rest.len() - 2, rest.len() as int);
                    assert(open[0] == rest[0] && open[1] == rest[1]);
                    assert(close[0] == rest[rest.len() - 2] && close[1] == rest[rest.len() - 1]);
                    assert(forall|i: int|
                        0 <= i < label.len() ==> label[i] == rest[i + 2]);
                },
            }
        }
        assert(s =~= command_text(ns, form));
        if s != body {
            assert(body =~= in_code_ticks(s));
        }
        assert(is_command(body, ns, form));
    }
}

/// A label written between the quotes of a `tokio::spawn` call in inline
/// code comes back unchanged.
pub proof fn lemma_label_round_trip(label: Seq<char>)
    ensures
        spec_recognize("`tokio::spawn(\""@ + label + "\")`"@) == (CommandMatchView {
            explicit_label: Some(label),
            matched: true,
        }),
{
    reveal_strlit("`tokio::spawn(\"");
    reveal_strlit("\")`");
    reveal_strlit("tokio::");
    reveal_strlit("spawn");
    reveal_strlit("`");
    reveal_strlit("(\"");
    reveal_strlit("\")");
    let form = CallForm::Labelled(label);
    lemma_recognize_command("tokio::"@, form);
    assert("`tokio::spawn(\""@ + label + "\")`"@ =~= in_code_ticks(
        command_text("tokio::"@, form),
    ));
}

/// Recognition depends on the body alone: two results for one body are the
/// same value.
pub proof fn lemma_recognize_idempotent(body: Seq<char>, first: CommandMatch, second: CommandMatch)
    requires
        first@ == spec_recognize(body),
        second@ == spec_recognize(body),
    ensures
        first@ == second@,
        first.matched == second.matched,
        first.explicit_label is Some == second.explicit_label is Some,
        first.explicit_label is Some ==> first.explicit_label->0@ == second.explicit_label->0@,
{
}

} // verus!
