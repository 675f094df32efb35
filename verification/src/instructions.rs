//! The instruction log: the ordered build instructions of a session.
//!
//! An instruction is one line of the accumulating build script, stored as
//! its ordered tokens; the first token is the instruction kind (`FROM`,
//! `RUN` or `WORKDIR`). Serialization joins the tokens of an instruction
//! with single spaces and the instructions with newlines; the result is the
//! build-file text handed to the image builder.

use vstd::prelude::*;

use crate::strutil::{dec_str, join_spec, lemma_join_snoc, u64_to_string};

verus! {

/// Well-formedness of an instruction log: never empty, no empty
/// instruction, and the first instruction is a `FROM` line.
pub open spec fn lines_wf(ls: Seq<Seq<Seq<char>>>) -> bool {
    &&& ls.len() >= 1
    &&& forall|i: int| 0 <= i < ls.len() ==> ls[i].len() >= 1
    &&& ls[0][0] == "FROM"@
}

/// The serialized text of one instruction: its tokens joined by spaces.
pub open spec fn instr_text(instr: Seq<Seq<char>>) -> Seq<char> {
    join_spec(instr, seq![' '])
}

/// The serialized build-file text: instruction texts joined by newlines.
pub open spec fn dockerfile_text(ls: Seq<Seq<Seq<char>>>) -> Seq<char>
    decreases ls.len(),
{
    if ls.len() == 0 {
        Seq::empty()
    } else if ls.len() == 1 {
        instr_text(ls[0])
    } else {
        dockerfile_text(ls.drop_last()) + seq!['\n'] + instr_text(ls.last())
    }
}

/// Serialize the instruction log to the build-file text.
pub fn serialize_dockerfile(lines: &Vec<Vec<String>>) -> (r: String)
    ensures
        r@ == dockerfile_text(lines.deep_view()),
{
    let ghost lv = lines.deep_view();
    let mut r = String::new();
    let mut i: usize = 0;
    while i < lines.len()
        invariant
            lv == lines.deep_view(),
            lv.len() == lines.len(),
            i <= lines.len(),
            r@ == dockerfile_text(lv.take(i as int)),
        decreases lines.len() - i,
    {
        if i > 0 {
            let nl = "\n";
            proof {
                reveal_strlit("\n");
                assert(nl@ =~= seq!['\n']);
            }
            r.append(nl);
        }
        let sp = " ";
        proof {
            reveal_strlit(" ");
            assert(sp@ =~= seq![' ']);
        }
        let text = crate::strutil::join_with(&lines[i], sp);
        r.append(text.as_str());
        proof {
            assert(lines[i as int].deep_view() == lv[i as int]);
            assert(lv.take(i + 1).drop_last() =~= lv.take(i as int));
            assert(lv.take(i + 1).last() == lv[i as int]);
            if i == 0 {
                assert(r@ == instr_text(lv[0]));
            }
        }
        i += 1;
    }
    proof {
        assert(lv.take(lines.len() as int) =~= lv);
    }
    r
}

/// The index of the first space in `s`, or `s.len()` if there is none.
pub open spec fn first_space(s: Seq<char>) -> int
    decreases s.len(),
{
    if s.len() == 0 {
        0
    } else if s[0] == ' ' {
        0
    } else {
        1 + first_space(s.drop_first())
    }
}

proof fn lemma_first_space_at(s: Seq<char>, k: int)
    requires
        0 <= k <= s.len(),
        forall|j: int| 0 <= j < k ==> s[j] != ' ',
        k < s.len() ==> s[k] == ' ',
    ensures
        first_space(s) == k,
    decreases k,
{
    if k == 0 {
        if s.len() > 0 {
            assert(s[0] == ' ');
        }
    } else {
        assert(s[0] != ' ');
        assert(s.drop_first() =~= s.skip(1));
        lemma_first_space_at(s.skip(1), k - 1);
    }
}

proof fn lemma_first_space_bounds(s: Seq<char>)
    ensures
        0 <= first_space(s) <= s.len(),
        first_space(s) < s.len() ==> s[first_space(s)] == ' ',
    decreases s.len(),
{
    if s.len() > 0 && s[0] != ' ' {
        lemma_first_space_bounds(s.drop_first());
    }
}

/// The record a script line parses to: the instruction kind is the text
/// before the line's first space, the argument token the text after it;
/// a line without a space is a kind alone.
pub open spec fn parsed_record(s: Seq<char>) -> Seq<Seq<char>> {
    let k = first_space(s);
    if k == s.len() {
        seq![s]
    } else {
        seq![s.take(k), s.skip(k + 1)]
    }
}

/// Parsing is a right inverse of the instruction serialization: joining a
/// parsed record's tokens back with single spaces reproduces the line.
pub proof fn lemma_parse_serialize_roundtrip(s: Seq<char>)
    ensures
        instr_text(parsed_record(s)) == s,
{
    lemma_first_space_bounds(s);
    let k = first_space(s);
    if k == s.len() {
        assert(instr_text(seq![s]) == s);
    } else {
        let rec = seq![s.take(k), s.skip(k + 1)];
        assert(rec.drop_first() =~= seq![s.skip(k + 1)]);
        assert(join_spec(seq![s.skip(k + 1)], seq![' ']) == s.skip(k + 1));
        assert(instr_text(rec) == s.take(k) + seq![' '] + s.skip(k + 1));
        assert(s[k] == ' ');
        assert(s.take(k) + seq![' '] + s.skip(k + 1) =~= s);
    }
}

/// Split each line of an instruction script at its first space into its
/// `parsed_record`: kind before the space, argument after it, the kind
/// alone when the line has no space.
pub fn parse_dockerfile(lines: &Vec<String>) -> (r: Vec<Vec<String>>)
    ensures
        r.deep_view().len() == lines@.len(),
        forall|i: int|
            #![trigger r.deep_view()[i]]
            0 <= i < lines@.len() ==> r.deep_view()[i] == parsed_record(lines.deep_view()[i]),
{
    let mut r: Vec<Vec<String>> = Vec::new();
    let mut i: usize = 0;
    while i < lines.len()
        invariant
            r.deep_view().len() == i,
            i <= lines@.len(),
            lines@.len() == lines.len(),
            forall|j: int|
                #![trigger r.deep_view()[j]]
                0 <= j < i ==> r.deep_view()[j] == parsed_record(lines.deep_view()[j]),
        decreases lines.len() - i,
    {
        let raw = &lines[i];
        let len = raw.as_str().unicode_len();
        let mut k: usize = 0;
        while k < len && raw.as_str().get_char(k) != ' '
            invariant
                len == raw@.len(),
                k <= len,
                forall|j: int| 0 <= j < k ==> raw@[j] != ' ',
            decreases len - k,
        {
            k += 1;
        }
        proof {
            lemma_first_space_at(raw@, k as int);
        }
        let mut instr: Vec<String> = Vec::new();
        if k == len {
            instr.push(String::from_str(raw.as_str()));
        } else {
            instr.push(String::from_str(raw.as_str().substring_char(0, k)));
            instr.push(String::from_str(raw.as_str().substring_char(k + 1, len)));
        }
        let ghost prev = r.deep_view();
        r.push(instr);
        proof {
            let s = lines.deep_view()[i as int];
            assert(s == raw@);
            assert(instr.deep_view() =~= parsed_record(s));
            assert(r.deep_view().len() == i + 1);
            assert(r.deep_view()[i as int] == instr.deep_view());
            assert forall|j: int| #![trigger r.deep_view()[j]] 0 <= j < i + 1 implies r.deep_view()[j]
                == parsed_record(lines.deep_view()[j]) by {
                if j < i {
                    assert(r.deep_view()[j] == prev[j]);
                } else {
                    assert(r.deep_view()[j] == instr.deep_view());
                }
            }
        }
        i += 1;
    }
    r
}

/// The instruction's arguments: every token after the kind, space-joined.
/// This is the command text handed to the shell when the instruction is
/// speculatively executed.
pub fn run_args(instr: &Vec<String>) -> (r: String)
    requires
        instr@.len() >= 1,
    ensures
        r@ == join_spec(instr.deep_view().drop_first(), seq![' ']),
{
    let ghost tail = instr.deep_view().drop_first();
    let mut r = String::new();
    let mut i: usize = 1;
    while i < instr.len()
        invariant
            instr@.len() >= 1,
            tail == instr.deep_view().drop_first(),
            tail.len() == instr@.len() - 1,
            forall|j: int| 0 <= j < tail.len() ==> tail[j] == instr@[j + 1]@,
            1 <= i <= instr@.len(),
            r@ == join_spec(tail.take(i - 1), seq![' ']),
        decreases instr.len() - i,
    {
        if i > 1 {
            let sp = " ";
            proof {
                reveal_strlit(" ");
                assert(sp@ =~= seq![' ']);
            }
            r.append(sp);
        }
        r.append(instr[i].as_str());
        proof {
            lemma_join_snoc(tail.take(i - 1), tail[i - 1], seq![' ']);
            assert(tail.take(i - 1).push(tail[i - 1]) =~= tail.take(i as int));
        }
        i += 1;
    }
    proof {
        assert(tail.take(instr@.len() - 1) =~= tail);
    }
    r
}

/// The indexed listing of the instruction log, one `index: instruction`
/// line per instruction, each line newline-terminated.
pub open spec fn layers_text(ls: Seq<Seq<Seq<char>>>) -> Seq<char>
    decreases ls.len(),
{
    if ls.len() == 0 {
        Seq::empty()
    } else {
        layers_text(ls.drop_last()) + dec_str((ls.len() - 1) as nat) + seq![':', ' '] + instr_text(
            ls.last(),
        ) + seq!['\n']
    }
}

/// Render the indexed instruction listing shown by the `layers` command.
pub fn format_layers(lines: &Vec<Vec<String>>) -> (r: String)
    ensures
        r@ == layers_text(lines.deep_view()),
{
    let ghost lv = lines.deep_view();
    let mut r = String::new();
    let mut i: usize = 0;
    while i < lines.len()
        invariant
            lv == lines.deep_view(),
            lv.len() == lines.len(),
            i <= lines.len(),
            r@ == layers_text(lv.take(i as int)),
        decreases lines.len() - i,
    {
        let idx = u64_to_string(i as u64);
        r.append(idx.as_str());
        let colon = ": ";
        proof {
            reveal_strlit(": ");
            assert(colon@ =~= seq![':', ' ']);
        }
        r.append(colon);
        let sp = " ";
        proof {
            reveal_strlit(" ");
            assert(sp@ =~= seq![' ']);
        }
        let text = crate::strutil::join_with(&lines[i], sp);
        r.append(text.as_str());
        let nl = "\n";
        proof {
            reveal_strlit("\n");
            assert(nl@ =~= seq!['\n']);
        }
        r.append(nl);
        proof {
            assert(lines[i as int].deep_view() == lv[i as int]);
            assert(lv.take(i + 1).drop_last() =~= lv.take(i as int));
            assert(lv.take(i + 1).last() == lv[i as int]);
        }
        i += 1;
    }
    proof {
        assert(lv.take(lines.len() as int) =~= lv);
    }
    r
}

} // verus!
