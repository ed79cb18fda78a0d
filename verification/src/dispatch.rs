//! The command dispatcher: splits an argument string into tokens and routes
//! a (verb, tokens) pair to the held engine handle, or fails fast with the
//! uninitialized-state error when the registry is empty.
use vstd::prelude::*;
use vstd::string::StrSliceExecFns;
use vstd::string::StringExecFns;

use crate::registry::EngineHandle;
use crate::registry::Registry;
use crate::text::error_body;
use crate::text::error_body_spec;
use crate::text::str_eq;

verus! {

/// The characters the tokenizer splits on: the Unicode White_Space set.
pub open spec fn is_ws(c: char) -> bool {
    ||| c == '\u{0009}'
    ||| c == '\u{000A}'
    ||| c == '\u{000B}'
    ||| c == '\u{000C}'
    ||| c == '\u{000D}'
    ||| c == '\u{0020}'
    ||| c == '\u{0085}'
    ||| c == '\u{00A0}'
    ||| c == '\u{1680}'
    ||| c == '\u{2000}'
    ||| c == '\u{2001}'
    ||| c == '\u{2002}'
    ||| c == '\u{2003}'
    ||| c == '\u{2004}'
    ||| c == '\u{2005}'
    ||| c == '\u{2006}'
    ||| c == '\u{2007}'
    ||| c == '\u{2008}'
    ||| c == '\u{2009}'
    ||| c == '\u{200A}'
    ||| c == '\u{2028}'
    ||| c == '\u{2029}'
    ||| c == '\u{202F}'
    ||| c == '\u{205F}'
    ||| c == '\u{3000}'
}

/// The tokens of `s` from position `i` on, given the partial word `cur`
/// and the tokens `acc` already complete: maximal runs of non-whitespace
/// characters, in order.
pub open spec fn split_ws_from(s: Seq<char>, i: int, cur: Seq<char>, acc: Seq<Seq<char>>) -> Seq<
    Seq<char>,
>
    decreases s.len() - i,
{
    if i < 0 || i >= s.len() {
        if cur.len() == 0 {
            acc
        } else {
            acc.push(cur)
        }
    } else if is_ws(s[i]) {
        if cur.len() == 0 {
            split_ws_from(s, i + 1, Seq::empty(), acc)
        } else {
            split_ws_from(s, i + 1, Seq::empty(), acc.push(cur))
        }
    } else {
        split_ws_from(s, i + 1, cur.push(s[i]), acc)
    }
}

/// The whitespace tokenization of a whole string.
pub open spec fn ws_tokens(s: Seq<char>) -> Seq<Seq<char>> {
    split_ws_from(s, 0, Seq::empty(), Seq::empty())
}

/// A word: a nonempty run free of whitespace.
pub open spec fn is_word(t: Seq<char>) -> bool {
    t.len() > 0 && (forall|j: int| 0 <= j < t.len() ==> !is_ws(t[j]))
}

proof fn lemma_split_ws_from_words(s: Seq<char>, i: int, cur: Seq<char>, acc: Seq<Seq<char>>)
    requires
        0 <= i,
        forall|j: int| 0 <= j < cur.len() ==> !is_ws(cur[j]),
        forall|k: int| 0 <= k < acc.len() ==> is_word(#[trigger] acc[k]),
    ensures
        forall|k: int|
            0 <= k < split_ws_from(s, i, cur, acc).len() ==> is_word(
                #[trigger] split_ws_from(s, i, cur, acc)[k],
            ),
    decreases s.len() - i,
{
    if i >= s.len() {
        if cur.len() == 0 {
            assert(split_ws_from(s, i, cur, acc) == acc);
        } else {
            assert(forall|k: int|
                0 <= k < acc.push(cur).len() ==> is_word(#[trigger] acc.push(cur)[k]));
            assert(split_ws_from(s, i, cur, acc) == acc.push(cur));
        }
    } else if is_ws(s[i]) {
        if cur.len() == 0 {
            lemma_split_ws_from_words(s, i + 1, Seq::empty(), acc);
            assert(split_ws_from(s, i, cur, acc) == split_ws_from(s, i + 1, Seq::empty(), acc));
        } else {
            assert(forall|k: int|
                0 <= k < acc.push(cur).len() ==> is_word(#[trigger] acc.push(cur)[k]));
            lemma_split_ws_from_words(s, i + 1, Seq::empty(), acc.push(cur));
            assert(split_ws_from(s, i, cur, acc) == split_ws_from(
                s,
                i + 1,
                Seq::empty(),
                acc.push(cur),
            ));
        }
    } else {
        assert(forall|j: int| 0 <= j < cur.push(s[i]).len() ==> !is_ws(cur.push(s[i])[j]));
        lemma_split_ws_from_words(s, i + 1, cur.push(s[i]), acc);
        assert(split_ws_from(s, i, cur, acc) == split_ws_from(s, i + 1, cur.push(s[i]), acc));
    }
}

/// Law: every token the whitespace tokenizer yields is a nonempty run
/// free of whitespace.
pub proof fn lemma_ws_tokens_are_words(s: Seq<char>)
    ensures
        forall|k: int|
            0 <= k < ws_tokens(s).len() ==> is_word(#[trigger] ws_tokens(s)[k]),
{
    lemma_split_ws_from_words(s, 0, Seq::empty(), Seq::empty());
}

fn is_ws_exec(c: char) -> (r: bool)
    ensures
        r == is_ws(c),
{
    c == '\u{0009}' || c == '\u{000A}' || c == '\u{000B}' || c == '\u{000C}' || c == '\u{000D}'
        || c == '\u{0020}' || c == '\u{0085}' || c == '\u{00A0}' || c == '\u{1680}' || c
        == '\u{2000}' || c == '\u{2001}' || c == '\u{2002}' || c == '\u{2003}' || c == '\u{2004}'
        || c == '\u{2005}' || c == '\u{2006}' || c == '\u{2007}' || c == '\u{2008}' || c
        == '\u{2009}' || c == '\u{200A}' || c == '\u{2028}' || c == '\u{2029}' || c == '\u{202F}'
        || c == '\u{205F}' || c == '\u{3000}'
}

/// Splits `s` into its maximal whitespace-free runs.
pub fn split_whitespace_tokens(s: &str) -> (tokens: Vec<String>)
    ensures
        tokens.deep_view() == ws_tokens(s@),
{
    let n = s.unicode_len();
    let mut tokens: Vec<String> = Vec::new();
    let mut cur = String::new();
    let mut i: usize = 0;
    proof {
        assert(tokens.deep_view() =~= Seq::<Seq<char>>::empty());
    }
    while i < n
        invariant
            i <= n,
            n == s@.len(),
            ws_tokens(s@) == split_ws_from(s@, i as int, cur@, tokens.deep_view()),
        decreases n - i,
    {
        let ghost prev_acc = tokens.deep_view();
        let ghost prev_cur = cur@;
        let c = s.get_char(i);
        if is_ws_exec(c) {
            if !cur.as_str().is_empty() {
                tokens.push(cur);
                cur = String::new();
                proof {
                    assert(tokens.deep_view() =~= prev_acc.push(prev_cur));
                    assert(split_ws_from(s@, i as int, prev_cur, prev_acc) == split_ws_from(
                        s@,
                        i + 1,
                        Seq::empty(),
                        prev_acc.push(prev_cur),
                    ));
                    assert(cur@ =~= Seq::<char>::empty());
                }
            } else {
                proof {
                    assert(split_ws_from(s@, i as int, prev_cur, prev_acc) == split_ws_from(
                        s@,
                        i + 1,
                        Seq::empty(),
                        prev_acc,
                    ));
                    assert(cur@ =~= Seq::<char>::empty());
                }
            }
        } else {
            let piece = s.substring_char(i, i + 1);
            cur.append(piece);
            proof {
                assert(s@.subrange(i as int, i + 1) =~= seq![s@[i as int]]);
                assert(cur@ =~= prev_cur.push(s@[i as int]));
                assert(split_ws_from(s@, i as int, prev_cur, prev_acc) == split_ws_from(
                    s@,
                    i + 1,
                    prev_cur.push(s@[i as int]),
                    prev_acc,
                ));
            }
        }
        i += 1;
    }
    if !cur.as_str().is_empty() {
        let ghost prev_acc = tokens.deep_view();
        let ghost prev_cur = cur@;
        tokens.push(cur);
        proof {
            assert(tokens.deep_view() =~= prev_acc.push(prev_cur));
        }
    }
    tokens
}

/// The token sequence handed to the engine for a (verb, arguments) pair:
/// an empty argument string carries no tokens; a send-style verb whose
/// argument opens a JSON array is forwarded untouched as one token, because
/// it encodes a structured payload that must not be word-split; everything
/// else splits on whitespace.
pub open spec fn spec_tokens(verb: Seq<char>, args: Seq<char>) -> Seq<Seq<char>> {
    if args.len() == 0 {
        Seq::empty()
    } else if verb == "send"@ && args[0] == '[' {
        seq![args]
    } else {
        ws_tokens(args)
    }
}

/// Tokenizes an argument string for a verb, with the single documented
/// exception for a structured send payload.
pub fn tokenize_args(verb: &str, args: &str) -> (tokens: Vec<String>)
    ensures
        tokens.deep_view() == spec_tokens(verb@, args@),
{
    if args.unicode_len() == 0 {
        let tokens: Vec<String> = Vec::new();
        proof {
            assert(tokens.deep_view() =~= Seq::<Seq<char>>::empty());
        }
        tokens
    } else if str_eq(verb, "send") && args.get_char(0) == '[' {
        proof {
            reveal_strlit("[");
        }
        let mut tokens: Vec<String> = Vec::new();
        tokens.push(String::from_str(args));
        proof {
            assert(tokens.deep_view() =~= seq![args@]);
        }
        tokens
    } else {
        proof {
            reveal_strlit("[");
        }
        split_whitespace_tokens(args)
    }
}

/// What a dispatch call does: fail fast while the registry is empty, or
/// forward the tokenized arguments to the held handle.
pub enum DispatchPlan {
    /// The registry is empty: the caller gets the uninitialized-state
    /// error body and the engine is never reached.
    Uninitialized { result: String },
    /// The verb and tokens to forward to the engine held by `handle`.
    Forward { handle: EngineHandle, tokens: Vec<String> },
}

/// The uninitialized-state error body.
pub open spec fn uninit_error_spec() -> Seq<char> {
    error_body_spec("Wallet not initialized"@)
}

/// Decides a dispatch call against the current registry: the error body
/// when no engine is installed, otherwise the handle to call and the
/// token sequence to hand it. The engine call itself happens outside,
/// on a transient reference, never under the registry lock.
pub fn dispatch_plan(registry: &Registry, verb: &str, args: &str) -> (p: DispatchPlan)
    ensures
        (p is Uninitialized <==> registry.spec_slot() is None),
        p is Uninitialized ==> p->result@ == uninit_error_spec(),
        p is Forward ==> p->handle == registry.spec_slot()->0 && p->tokens.deep_view()
            == spec_tokens(verb@, args@),
{
    match registry.get() {
        None => {
            let result = error_body("Wallet not initialized");
            proof {
                reveal_strlit("Wallet not initialized");
            }
            DispatchPlan::Uninitialized { result }
        },
        Some(handle) => {
            let tokens = tokenize_args(verb, args);
            DispatchPlan::Forward { handle, tokens }
        },
    }
}

} // verus!
