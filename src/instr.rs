use crate::reg::Reg;
use vstd::prelude::*;

verus! {

/// The instructions that the return protocol reads.
///
/// The registers of a many-value return do not all fit its own operands:
/// the rest follow it in the instruction sequence as a chain of
/// continuations, zero or more `RegisterList` followed by one of
/// `Register`, `Register2` or `Register3`.
#[derive(Debug, Clone, Copy)]
pub enum Instruction {
    /// Returns nothing.
    Return,
    /// Returns the values of three registers and of the continuations that follow.
    ReturnMany { values: [Reg; 3] },
    /// Where `condition` is not zero, returns the values of two registers and
    /// of the continuations that follow.
    ReturnNezMany { condition: Reg, values: [Reg; 2] },
    /// A continuation of three registers, with more continuations after it.
    RegisterList { regs: [Reg; 3] },
    /// The last continuation, with one register.
    Register { reg: Reg },
    /// The last continuation, with two registers.
    Register2 { regs: [Reg; 2] },
    /// The last continuation, with three registers.
    Register3 { regs: [Reg; 3] },
}

/// The registers of the continuation chain that starts at `ip`, in stream
/// order, and the position just past its last continuation; `None` where no
/// well-formed chain starts there.
pub open spec fn chain(code: Seq<Instruction>, ip: int) -> Option<(Seq<Reg>, int)>
    decreases code.len() - ip,
{
    if 0 <= ip < code.len() {
        match code[ip] {
            Instruction::RegisterList { regs } => match chain(code, ip + 1) {
                Some((rest, end)) => Some((regs@ + rest, end)),
                None => None,
            },
            Instruction::Register { reg } => Some((seq![reg], ip + 1)),
            Instruction::Register2 { regs } => Some((regs@, ip + 1)),
            Instruction::Register3 { regs } => Some((regs@, ip + 1)),
            _ => None,
        }
    } else {
        None
    }
}

/// The position just past the continuation chain that starts at `ip`,
/// found by stepping over the continuations without reading them.
pub open spec fn chain_end(code: Seq<Instruction>, ip: int) -> Option<int>
    decreases code.len() - ip,
{
    if 0 <= ip < code.len() {
        match code[ip] {
            Instruction::RegisterList { .. } => chain_end(code, ip + 1),
            Instruction::Register { .. } => Some(ip + 1),
            Instruction::Register2 { .. } => Some(ip + 1),
            Instruction::Register3 { .. } => Some(ip + 1),
            _ => None,
        }
    } else {
        None
    }
}

/// A chain starts inside the instruction sequence and ends at most just
/// past it.
pub proof fn lemma_chain_in_bounds(code: Seq<Instruction>, ip: int)
    requires
        chain(code, ip) is Some,
    ensures
        0 <= ip < code.len(),
        ip < chain(code, ip).unwrap().1 <= code.len(),
    decreases code.len() - ip,
{
    if let Instruction::RegisterList { .. } = code[ip] {
        lemma_chain_in_bounds(code, ip + 1);
    }
}

/// Stepping over a continuation chain and reading it agree: both accept
/// the same chains and stop at the same position.
pub proof fn lemma_skip_agrees_with_copy(code: Seq<Instruction>, ip: int)
    ensures
        chain_end(code, ip) is Some <==> chain(code, ip) is Some,
        chain(code, ip) matches Some((_, end)) ==> chain_end(code, ip) == Some(end),
    decreases code.len() - ip,
{
    if 0 <= ip < code.len() {
        if let Instruction::RegisterList { .. } = code[ip] {
            lemma_skip_agrees_with_copy(code, ip + 1);
        }
    }
}

/// Returns the position just past the continuation chain that starts at `ip`.
pub fn skip_register_list(code: &Vec<Instruction>, start: usize) -> (r: usize)
    requires
        chain_end(code@, start as int) is Some,
    ensures
        chain_end(code@, start as int) == Some(r as int),
{
    let mut ip: usize = start;
    while ip < code.len() && matches!(code[ip], Instruction::RegisterList { .. })
        invariant
            chain_end(code@, ip as int) == chain_end(code@, start as int),
            chain_end(code@, ip as int) is Some,
        decreases code.len() - ip,
    {
        ip = ip + 1;
    }
    ip + 1
}

} // verus!
