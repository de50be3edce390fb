//! The rule that names the thread: the label the command gave, or else a
//! default that depends on the runtime the body speaks of.

use vstd::prelude::*;
use vstd::string::*;
use crate::model::{CommandMatch, CommandMatchView};
use crate::recognizer::{
    call_text, command_text, is_command, lemma_recognize_command, spec_recognize, CallForm,
};
use crate::text::{chars_of, contains, contains_seq, occurs_at};

verus! {

/// The default label for `body`: the name of a runtime worker where the body
/// mentions the runtime anywhere, a generic name where it does not.
pub open spec fn spec_fallback_label(body: Seq<char>) -> Seq<char> {
    if contains_seq(body, "tokio"@) {
        "tokio-runtime-worker"@
    } else {
        "unnamed"@
    }
}

/// The label for a command found in `body`.
pub open spec fn spec_derive_label(m: CommandMatchView, body: Seq<char>) -> Seq<char> {
    match m.explicit_label {
        Some(label) => label,
        None => spec_fallback_label(body),
    }
}

/// The default label for `body`.
pub fn fallback_label(body: &str) -> (label: String)
    ensures
        label@ == spec_fallback_label(body@),
        label@.len() > 0,
{
    proof {
        reveal_strlit("tokio-runtime-worker");
        reveal_strlit("unnamed");
    }
    let hay = chars_of(body);
    let needle = chars_of("tokio");
    if contains(&hay, &needle) {
        "tokio-runtime-worker".to_owned()
    } else {
        "unnamed".to_owned()
    }
}

/// Derives the label of the thread from a recognized command and the body it
/// was found in: the explicit label, character for character, where there is
/// one (an empty one stays empty), and the default label of the body where
/// there is none. The label is empty only where the command said so.
pub fn derive_label(m: &CommandMatch, body: &str) -> (label: String)
    ensures
        label@ == spec_derive_label(m@, body@),
        label@.len() == 0 <==> m@.explicit_label == Some(Seq::<char>::empty()),
{
    match &m.explicit_label {
        Some(explicit) => {
            let label = explicit.clone();
            assert(label@.len() == 0 <==> label@ =~= Seq::<char>::empty());
            label
        },
        None => fallback_label(body),
    }
}

/// Where the runtime's name stands in a text, a `t` stands with an `o` behind it.
proof fn lemma_token_begins(hay: Seq<char>, at: int)
    requires
        occurs_at(hay, "tokio"@, at),
    ensures
        0 <= at,
        at + 1 < hay.len(),
        hay[at] == 't',
        hay[at + 1] == 'o',
{
    reveal_strlit("tokio");
    let found = hay.subrange(at, at + 5);
    assert(found[0] == 't' && found[1] == 'o');
}

/// No text made of `head`, the keyword and `tail` mentions the runtime, where
/// `head` is one of the thread namespaces, alone or behind a backtick, and
/// `tail` holds no `t`.
proof fn lemma_thread_command_has_no_token(hay: Seq<char>, head: Seq<char>, tail: Seq<char>)
    requires
        hay == head + "spawn"@ + tail,
        head == "thread::"@ || head == "std::thread::"@ || head == "`thread::"@ || head
            == "`std::thread::"@,
        forall|i: int| 0 <= i < tail.len() ==> tail[i] != 't',
    ensures
        !contains_seq(hay, "tokio"@),
{
    reveal_strlit("thread::");
    reveal_strlit("std::thread::");
    reveal_strlit("`thread::");
    reveal_strlit("`std::thread::");
    reveal_strlit("spawn");
    let word = head + "spawn"@;
    assert forall|at: int| !occurs_at(hay, "tokio"@, at) by {
        if occurs_at(hay, "tokio"@, at) {
            lemma_token_begins(hay, at);
            if at >= word.len() {
                assert(hay[at] == tail[at - word.len()]);
            } else if at + 1 < word.len() {
                assert(hay[at] == word[at] && hay[at + 1] == word[at + 1]);
                assert(!(word[at] == 't' && word[at + 1] == 'o'));
            } else {
                assert(hay[at] == word[at]);
                assert(word[at] == 'n');
            }
        }
    }
}

/// A command without a label is named after its namespace: a worker of the
/// runtime where that is the runtime's namespace, the generic name for
/// either spelling of the thread namespace.
pub proof fn lemma_default_label_by_namespace(body: Seq<char>, ns: Seq<char>, form: CallForm)
    requires
        is_command(body, ns, form),
        !(form is Labelled),
    ensures
        spec_recognize(body).explicit_label is None,
        spec_derive_label(spec_recognize(body), body) == if ns == "tokio::"@ {
            "tokio-runtime-worker"@
        } else {
            "unnamed"@
        },
{
    reveal_strlit("tokio::");
    reveal_strlit("thread::");
    reveal_strlit("std::thread::");
    reveal_strlit("`thread::");
    reveal_strlit("`std::thread::");
    reveal_strlit("spawn");
    reveal_strlit("tokio");
    reveal_strlit("`");
    reveal_strlit("()");
    lemma_recognize_command(ns, form);
    let text = command_text(ns, form);
    let call = call_text(form);
    if ns == "tokio::"@ {
        if body == text {
            assert(body.subrange(0, 5) =~= "tokio"@);
            assert(occurs_at(body, "tokio"@, 0));
        } else {
            assert(body.subrange(1, 6) =~= "tokio"@);
            assert(occurs_at(body, "tokio"@, 1));
        }
    } else if body == text {
        lemma_thread_command_has_no_token(body, ns, call);
    } else {
        let head = "`"@ + ns;
        let tail = call + "`"@;
        assert(head =~= "`thread::"@ || head =~= "`std::thread::"@);
        assert(body =~= head + "spawn"@ + tail);
        lemma_thread_command_has_no_token(body, head, tail);
    }
}

} // verus!
