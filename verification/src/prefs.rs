//! The preferences record and its persisted text form.
//!
//! The record is kept in memory by the supervisor and written through to
//! disk on every update; the document format is a single JSON object with
//! a fixed field order. The writer meets the format exactly, and the
//! reader accepts precisely the documents the writer produces: its
//! contract states both that whatever it accepts is the encoding of the
//! returned record, and that every encoding of a valid record is
//! accepted. Together with the injectivity of the encoding this gives the
//! round trip: a record written out and read back is returned unchanged.

use vstd::prelude::*;

use crate::decimal::dec_digits;
use crate::decimal::digits_run_at;
use crate::decimal::is_digit_char;
use crate::decimal::lemma_dec_digits_basic;
use crate::decimal::lemma_digits_run_at_unique;
use crate::decimal::parse_u16;
use crate::decimal::u16_to_decimal;
use crate::text::expect_lit;
use crate::text::occurs_at;

verus! {

/// A preferences record persisted across runs of the application.
#[derive(Clone, Copy, PartialEq, Eq, Structural, Debug)]
pub struct AppPreferences {
    pub auto_start_ollama: bool,
    pub keep_ollama_running_on_exit: bool,
    pub backend_port: u16,
}

impl AppPreferences {
    /// A valid record carries a usable TCP port.
    pub open spec fn wf(self) -> bool {
        1 <= self.backend_port
    }
}

/// The record assumed when no preferences were ever saved.
pub open spec fn spec_default_preferences() -> AppPreferences {
    AppPreferences { auto_start_ollama: true, keep_ollama_running_on_exit: true, backend_port: 8080 }
}

impl Default for AppPreferences {
    /// Start the model runtime automatically, leave it running on exit,
    /// serve the backend on port 8080.
    fn default() -> (r: Self)
        ensures
            r == spec_default_preferences(),
            r.wf(),
    {
        AppPreferences {
            auto_start_ollama: true,
            keep_ollama_running_on_exit: true,
            backend_port: 8080,
        }
    }
}

/// The text of a boolean in the persisted document.
pub open spec fn spec_bool_text(b: bool) -> Seq<char> {
    if b {
        "true"@
    } else {
        "false"@
    }
}

/// The persisted document of a record: one JSON object, fields in a fixed
/// order, the port in canonical decimal.
#[verifier::opaque]
pub open spec fn spec_encode_preferences(p: AppPreferences) -> Seq<char> {
    "{\"auto_start_ollama\":"@ + spec_bool_text(p.auto_start_ollama)
        + ",\"keep_ollama_running_on_exit\":"@ + spec_bool_text(p.keep_ollama_running_on_exit)
        + ",\"backend_port\":"@ + dec_digits(p.backend_port as nat) + "}"@
}

/// Writes the persisted document of `p`.
pub fn encode_preferences(p: &AppPreferences) -> (r: String)
    ensures
        r@ == spec_encode_preferences(*p),
{
    let mut s = String::new();
    s.append("{\"auto_start_ollama\":");
    s.append(bool_text(p.auto_start_ollama));
    s.append(",\"keep_ollama_running_on_exit\":");
    s.append(bool_text(p.keep_ollama_running_on_exit));
    s.append(",\"backend_port\":");
    let port = u16_to_decimal(p.backend_port);
    s.append(port.as_str());
    s.append("}");
    proof {
        reveal(spec_encode_preferences);
        assert(s@ =~= spec_encode_preferences(*p));
    }
    s
}

/// The text of a boolean, executable form.
fn bool_text(b: bool) -> (r: &'static str)
    ensures
        r@ == spec_bool_text(b),
{
    if b {
        "true"
    } else {
        "false"
    }
}

/// The two boolean texts cannot stand at the same position.
proof fn lemma_bool_texts_distinct(s: Seq<char>, pos: int)
    ensures
        !(occurs_at(s, pos, "true"@) && occurs_at(s, pos, "false"@)),
{
    reveal_strlit("true");
    reveal_strlit("false");
    if occurs_at(s, pos, "true"@) && occurs_at(s, pos, "false"@) {
        assert(s[pos] == s.subrange(pos, pos + "true"@.len() as int)[0]);
        assert(s[pos] == s.subrange(pos, pos + "false"@.len() as int)[0]);
    }
}

/// Reads a boolean of the persisted document at position `pos`.
fn parse_bool(s: &str, pos: usize) -> (r: Option<(bool, usize)>)
    requires
        pos <= s@.len(),
    ensures
        r matches Some(q) ==> occurs_at(s@, pos as int, spec_bool_text(q.0)) && q.1 == pos
            + spec_bool_text(q.0).len(),
        forall|b: bool|
            occurs_at(s@, pos as int, spec_bool_text(b)) ==> (r matches Some(q) && q.0 == b && q.1
                == pos + spec_bool_text(b).len()),
{
    match expect_lit(s, pos, "true") {
        Some(e) => {
            proof {
                lemma_bool_texts_distinct(s@, pos as int);
            }
            return Some((true, e));
        },
        None => {},
    }
    match expect_lit(s, pos, "false") {
        Some(e) => {
            return Some((false, e));
        },
        None => {},
    }
    None
}

/// Where each piece of the persisted document of `p` stands, and the
/// document's total length.
proof fn lemma_encoding_layout(p: AppPreferences)
    ensures
        ({
            let e = spec_encode_preferences(p);
            let l1 = "{\"auto_start_ollama\":"@.len() as int;
            let q1 = l1 + spec_bool_text(p.auto_start_ollama).len();
            let q2 = q1 + ",\"keep_ollama_running_on_exit\":"@.len();
            let q3 = q2 + spec_bool_text(p.keep_ollama_running_on_exit).len();
            let q4 = q3 + ",\"backend_port\":"@.len();
            let q5 = q4 + dec_digits(p.backend_port as nat).len();
            &&& occurs_at(e, 0, "{\"auto_start_ollama\":"@)
            &&& occurs_at(e, l1, spec_bool_text(p.auto_start_ollama))
            &&& occurs_at(e, q1 as int, ",\"keep_ollama_running_on_exit\":"@)
            &&& occurs_at(e, q2 as int, spec_bool_text(p.keep_ollama_running_on_exit))
            &&& occurs_at(e, q3 as int, ",\"backend_port\":"@)
            &&& digits_run_at(e, q4 as int, p.backend_port as nat)
            &&& occurs_at(e, q5 as int, "}"@)
            &&& e.len() == q5 + 1
        }),
{
    let e = spec_encode_preferences(p);
    let h1 = "{\"auto_start_ollama\":"@;
    let h2 = ",\"keep_ollama_running_on_exit\":"@;
    let h3 = ",\"backend_port\":"@;
    let b1 = spec_bool_text(p.auto_start_ollama);
    let b2 = spec_bool_text(p.keep_ollama_running_on_exit);
    let d = dec_digits(p.backend_port as nat);
    let t = "}"@;
    reveal(spec_encode_preferences);
    reveal_strlit("}");
    lemma_dec_digits_basic(p.backend_port as nat);
    let l1 = h1.len() as int;
    let q1 = l1 + b1.len() as int;
    let q2 = q1 + h2.len() as int;
    let q3 = q2 + b2.len() as int;
    let q4 = q3 + h3.len() as int;
    let q5 = q4 + d.len() as int;
    assert(e.len() == q5 + 1);
    assert(e.subrange(0, l1) =~= h1);
    assert(e.subrange(l1, q1) =~= b1);
    assert(e.subrange(q1, q2) =~= h2);
    assert(e.subrange(q2, q3) =~= b2);
    assert(e.subrange(q3, q4) =~= h3);
    assert(e.subrange(q4, q5) =~= d);
    assert(e.subrange(q5, q5 + 1) =~= t);
    assert(e[q5] == '}');
    assert(!is_digit_char('}'));
}

/// A text split into the seven pieces of the persisted document of `p`
/// is that document.
proof fn lemma_encoding_assemble(
    s: Seq<char>,
    p: AppPreferences,
    pos0: int,
    pos1: int,
    pos2: int,
    pos3: int,
    pos4: int,
    pos5: int,
)
    requires
        0 <= pos0 <= pos1 <= pos2 <= pos3 <= pos4 <= pos5 <= s.len(),
        s.subrange(0, pos0) == "{\"auto_start_ollama\":"@,
        s.subrange(pos0, pos1) == spec_bool_text(p.auto_start_ollama),
        s.subrange(pos1, pos2) == ",\"keep_ollama_running_on_exit\":"@,
        s.subrange(pos2, pos3) == spec_bool_text(p.keep_ollama_running_on_exit),
        s.subrange(pos3, pos4) == ",\"backend_port\":"@,
        s.subrange(pos4, pos5) == dec_digits(p.backend_port as nat),
        s.subrange(pos5, s.len() as int) == "}"@,
    ensures
        s == spec_encode_preferences(p),
{
    reveal(spec_encode_preferences);
    assert(s =~= s.subrange(0, pos0) + s.subrange(pos0, pos1) + s.subrange(pos1, pos2)
        + s.subrange(pos2, pos3) + s.subrange(pos3, pos4) + s.subrange(pos4, pos5) + s.subrange(
        pos5,
        s.len() as int,
    ));
    assert(s =~= spec_encode_preferences(p));
}

/// Reads a persisted preferences document.
///
/// Accepts exactly the documents that `encode_preferences` writes for a
/// valid record: whatever is returned encodes back to the given text, and
/// every encoding of a valid record is accepted and returned.
#[verifier::rlimit(100)]
#[verifier::spinoff_prover]
pub fn parse_preferences(s: &str) -> (r: Option<AppPreferences>)
    ensures
        r matches Some(p) ==> p.wf() && s@ == spec_encode_preferences(p),
        forall|p: AppPreferences|
            p.wf() && s@ == spec_encode_preferences(p) ==> r == Some(p),
{
    let pos0 = match expect_lit(s, 0, "{\"auto_start_ollama\":") {
        Some(e) => e,
        None => {
            proof {
                assert forall|p: AppPreferences|
                    !(p.wf() && s@ == spec_encode_preferences(p)) by {
                    if p.wf() && s@ == spec_encode_preferences(p) {
                        lemma_encoding_layout(p);
                    }
                }
            }
            return None;
        },
    };
    let (a, pos1) = match parse_bool(s, pos0) {
        Some(q) => q,
        None => {
            proof {
                assert forall|p: AppPreferences|
                    !(p.wf() && s@ == spec_encode_preferences(p)) by {
                    if p.wf() && s@ == spec_encode_preferences(p) {
                        lemma_encoding_layout(p);
                    }
                }
            }
            return None;
        },
    };
    let pos2 = match expect_lit(s, pos1, ",\"keep_ollama_running_on_exit\":") {
        Some(e) => e,
        None => {
            proof {
                assert forall|p: AppPreferences|
                    !(p.wf() && s@ == spec_encode_preferences(p)) by {
                    if p.wf() && s@ == spec_encode_preferences(p) {
                        lemma_encoding_layout(p);
                    }
                }
            }
            return None;
        },
    };
    let (k, pos3) = match parse_bool(s, pos2) {
        Some(q) => q,
        None => {
            proof {
                assert forall|p: AppPreferences|
                    !(p.wf() && s@ == spec_encode_preferences(p)) by {
                    if p.wf() && s@ == spec_encode_preferences(p) {
                        lemma_encoding_layout(p);
                    }
                }
            }
            return None;
        },
    };
    let pos4 = match expect_lit(s, pos3, ",\"backend_port\":") {
        Some(e) => e,
        None => {
            proof {
                assert forall|p: AppPreferences|
                    !(p.wf() && s@ == spec_encode_preferences(p)) by {
                    if p.wf() && s@ == spec_encode_preferences(p) {
                        lemma_encoding_layout(p);
                    }
                }
            }
            return None;
        },
    };
    let (port, pos5) = match parse_u16(s, pos4) {
        Some(q) => q,
        None => {
            proof {
                assert forall|p: AppPreferences|
                    !(p.wf() && s@ == spec_encode_preferences(p)) by {
                    if p.wf() && s@ == spec_encode_preferences(p) {
                        lemma_encoding_layout(p);
                    }
                }
            }
            return None;
        },
    };
    let pos6 = match expect_lit(s, pos5, "}") {
        Some(e) => e,
        None => {
            proof {
                assert forall|p: AppPreferences|
                    !(p.wf() && s@ == spec_encode_preferences(p)) by {
                    if p.wf() && s@ == spec_encode_preferences(p) {
                        lemma_encoding_layout(p);
                    }
                }
            }
            return None;
        },
    };
    if pos6 != s.unicode_len() {
        proof {
            reveal_strlit("}");
            assert forall|p: AppPreferences| !(p.wf() && s@ == spec_encode_preferences(p)) by {
                if p.wf() && s@ == spec_encode_preferences(p) {
                    lemma_encoding_layout(p);
                }
            }
        }
        return None;
    }
    if port == 0 {
        proof {
            assert forall|p: AppPreferences| !(p.wf() && s@ == spec_encode_preferences(p)) by {
                if p.wf() && s@ == spec_encode_preferences(p) {
                    lemma_encoding_layout(p);
                }
            }
        }
        return None;
    }
    let pc = AppPreferences {
        auto_start_ollama: a,
        keep_ollama_running_on_exit: k,
        backend_port: port,
    };
    proof {
        lemma_encoding_assemble(
            s@,
            pc,
            pos0 as int,
            pos1 as int,
            pos2 as int,
            pos3 as int,
            pos4 as int,
            pos5 as int,
        );
        assert forall|p: AppPreferences|
            p.wf() && s@ == spec_encode_preferences(p) implies Some(pc) == Some(p) by {
            lemma_encoding_layout(p);
            assert(p.auto_start_ollama == a);
            assert(p.keep_ollama_running_on_exit == k);
            lemma_digits_run_at_unique(s@, pos4 as int, p.backend_port as nat, port as nat);
        }
    }
    Some(pc)
}

/// Law: the persisted form determines the record — two valid records with
/// the same document are the same record. With the reader's contract this
/// yields the round trip: a record written out and read back comes back
/// unchanged.
pub proof fn lemma_encode_preferences_injective(p1: AppPreferences, p2: AppPreferences)
    requires
        p1.wf(),
        p2.wf(),
        spec_encode_preferences(p1) == spec_encode_preferences(p2),
    ensures
        p1 == p2,
{
    let e = spec_encode_preferences(p1);
    lemma_encoding_layout(p1);
    lemma_encoding_layout(p2);
    let l1 = "{\"auto_start_ollama\":"@.len() as int;
    if p1.auto_start_ollama != p2.auto_start_ollama {
        lemma_bool_texts_distinct(e, l1);
    }
    let q2 = l1 + spec_bool_text(p1.auto_start_ollama).len()
        + ",\"keep_ollama_running_on_exit\":"@.len();
    if p1.keep_ollama_running_on_exit != p2.keep_ollama_running_on_exit {
        lemma_bool_texts_distinct(e, q2 as int);
    }
    let q4 = q2 + spec_bool_text(p1.keep_ollama_running_on_exit).len()
        + ",\"backend_port\":"@.len();
    lemma_digits_run_at_unique(e, q4 as int, p1.backend_port as nat, p2.backend_port as nat);
}

/// Interprets the result of looking for the persisted preferences file:
/// an absent file yields the default record, a stored document yields
/// its record, and text that decodes to no record falls back to the
/// default record rather than failing startup.
pub fn load_preferences(contents: Option<&str>) -> (r: AppPreferences)
    ensures
        r.wf(),
        contents is None ==> r == spec_default_preferences(),
        forall|p: AppPreferences|
            p.wf() && (contents matches Some(c) && c@ == spec_encode_preferences(p)) ==> r == p,
        (contents matches Some(c) && (forall|p: AppPreferences|
            p.wf() ==> c@ != spec_encode_preferences(p))) ==> r == spec_default_preferences(),
{
    match contents {
        None => AppPreferences::default(),
        Some(c) => match parse_preferences(c) {
            Some(p) => p,
            None => AppPreferences::default(),
        },
    }
}

} // verus!
