//! Assembly of the prompt sent to the inference service.

use vstd::prelude::*;
use vstd::string::StringExecFns;
use crate::instruction::{InstructionError, instruction, instruction_text};

verus! {

/// The fixed text between the task line and the source: the target-language
/// line and the delimiter line.
pub open spec fn prompt_middle() -> Seq<char> {
    "\n- Target is Rust.\n---\n"@
}

/// The prompt for a task text and a source text: a blank first line, the task
/// as a list item, the target-language line, the delimiter `---`, the source,
/// and a final newline.
pub open spec fn prompt_of(inst: Seq<char>, source: Seq<char>) -> Seq<char> {
    "\n- "@ + inst + prompt_middle() + source + "\n"@
}

/// Composes the prompt for a task text and a source text.
pub fn compose_prompt(inst: &str, source: &str) -> (r: String)
    ensures
        r@ == prompt_of(inst@, source@),
{
    let mut p = String::from_str("\n- ");
    p.append(inst);
    p.append("\n- Target is Rust.\n---\n");
    p.append(source);
    p.append("\n");
    p
}

/// Resolves the instruction code and composes the prompt for the source text;
/// an unknown code fails before any prompt is built.
pub fn build_prompt(number: u8, rust_code: &str) -> (r: Result<String, InstructionError>)
    ensures
        match instruction_text(number) {
            Some(t) => r is Ok && r->Ok_0@ == prompt_of(t, rust_code@),
            None => r == Err::<String, InstructionError>(InstructionError::InvalidInstruction(number)),
        },
{
    let inst = instruction(number)?;
    Ok(compose_prompt(inst.as_str(), rust_code))
}

/// Whether the delimiter line `---` begins, with the newline before it, at
/// position `i` of `p`.
pub open spec fn delimiter_at(p: Seq<char>, i: int) -> bool {
    &&& 0 <= i
    &&& i + 5 <= p.len()
    &&& p[i] == '\n'
    &&& p[i + 1] == '-'
    &&& p[i + 2] == '-'
    &&& p[i + 3] == '-'
    &&& p[i + 4] == '\n'
}

/// The position of the first delimiter in `p`.
pub open spec fn first_delimiter(p: Seq<char>) -> int {
    choose|i: int| delimiter_at(p, i) && forall|k: int| 0 <= k < i ==> !delimiter_at(p, k)
}

/// What a prompt carries after its first delimiter line, without the final
/// newline.
pub open spec fn source_after_delimiter(p: Seq<char>) -> Seq<char> {
    p.subrange(first_delimiter(p) + 5, p.len() - 1)
}

/// A text without newline characters.
pub open spec fn one_line(s: Seq<char>) -> bool {
    forall|j: int| 0 <= j < s.len() ==> s[j] != '\n'
}

proof fn lemma_instruction_text_one_line(number: u8)
    requires
        instruction_text(number) is Some,
    ensures
        one_line(instruction_text(number)->0),
{
    reveal_strlit("Please refactor the following rust code.");
    reveal_strlit("Please add appropriate tests to the following rust code.");
    reveal_strlit("Please add or update rustdoc comments for the following rust code.");
}

proof fn lemma_prompt_source(inst: Seq<char>, source: Seq<char>)
    ensures
        prompt_of(inst, source).len() == inst.len() + source.len() + 27,
        prompt_of(inst, source).subrange(inst.len() + 26int, inst.len() + source.len() + 26int) == source,
{
    reveal_strlit("\n- ");
    reveal_strlit("\n- Target is Rust.\n---\n");
    reveal_strlit("\n");
    let p = prompt_of(inst, source);
    assert(p.subrange(inst.len() + 26int, inst.len() + source.len() + 26int) =~= source);
}

/// Composition is a function of its two inputs, and for one task text it is
/// injective in the source: two prompts for the same task text are equal
/// exactly when their sources are.
pub proof fn lemma_prompt_injective(inst: Seq<char>, s1: Seq<char>, s2: Seq<char>)
    ensures
        prompt_of(inst, s1) == prompt_of(inst, s2) <==> s1 == s2,
{
    lemma_prompt_source(inst, s1);
    lemma_prompt_source(inst, s2);
}

/// Over the tasks that instruction codes select, a prompt determines both the
/// code and the source it was built from.
pub proof fn lemma_build_prompt_injective(n1: u8, n2: u8, s1: Seq<char>, s2: Seq<char>)
    requires
        instruction_text(n1) is Some,
        instruction_text(n2) is Some,
        prompt_of(instruction_text(n1)->0, s1) == prompt_of(instruction_text(n2)->0, s2),
    ensures
        n1 == n2,
        s1 == s2,
{
    let t1 = instruction_text(n1)->0;
    let t2 = instruction_text(n2)->0;
    let p = prompt_of(t1, s1);
    reveal_strlit("\n- ");
    reveal_strlit("\n- Target is Rust.\n---\n");
    reveal_strlit("Please refactor the following rust code.");
    reveal_strlit("Please add appropriate tests to the following rust code.");
    reveal_strlit("Please add or update rustdoc comments for the following rust code.");
    lemma_instruction_text_one_line(n1);
    lemma_instruction_text_one_line(n2);
    if t1.len() < t2.len() {
        assert(p[3int + t1.len()] == '\n');
        assert(prompt_of(t2, s2)[3int + t1.len()] == t2[t1.len() as int]);
    } else if t2.len() < t1.len() {
        assert(p[3int + t2.len()] == '\n');
        assert(p[3int + t2.len()] == t1[t2.len() as int]);
    }
    assert(t1.len() == t2.len());
    assert(n1 == n2);
    lemma_prompt_injective(t1, s1, s2);
}

/// Taking what follows the first delimiter line of a prompt, up to its final
/// newline, gives back the source the prompt was composed from, whatever the
/// source holds.
pub proof fn lemma_source_round_trip(number: u8, source: Seq<char>)
    requires
        instruction_text(number) is Some,
    ensures
        source_after_delimiter(prompt_of(instruction_text(number)->0, source)) == source,
{
    let t = instruction_text(number)->0;
    let p = prompt_of(t, source);
    let d: int = t.len() + 21int;
    reveal_strlit("\n- ");
    reveal_strlit("\n- Target is Rust.\n---\n");
    reveal_strlit("\n");
    lemma_instruction_text_one_line(number);
    lemma_prompt_source(t, source);
    assert(delimiter_at(p, d));
    assert forall|k: int| 0 <= k < d implies !delimiter_at(p, k) by {
        if 0 <= k < d && p[k] == '\n' && k + 5 <= p.len() {
            if 3 <= k < 3 + t.len() {
                assert(p[k] == t[k - 3]);
            }
            assert(p[k + 2] == ' ');
        }
    }
    let f = first_delimiter(p);
    assert(f == d) by {
        if f < d {
            assert(!delimiter_at(p, f));
        } else if f > d {
            assert(!delimiter_at(p, d));
        }
    }
}

} // verus!
