use vstd::prelude::*;

use crate::errors::{DiscKind, IdlError};
use crate::model::{IdlDocument, IdlInstruction, IdlItemDecl};

verus! {

/// The counts a successful validation reports.
#[derive(Debug)]
pub struct IdlSummary {
    pub accounts: usize,
    pub instructions: usize,
    pub types: usize,
}

/// The index of the first declaration with an empty discriminator, or -1 if
/// every declaration carries one.
pub open spec fn first_empty_decl(s: Seq<IdlItemDecl>) -> int
    decreases s.len(),
{
    if s.len() == 0 {
        -1
    } else if s[0].discriminator@.len() == 0 {
        0
    } else {
        let r = first_empty_decl(s.drop_first());
        if r == -1 {
            -1
        } else {
            r + 1
        }
    }
}

/// The index of the first instruction with an empty discriminator, or -1 if
/// every instruction carries one.
pub open spec fn first_empty_instr(s: Seq<IdlInstruction>) -> int
    decreases s.len(),
{
    if s.len() == 0 {
        -1
    } else if s[0].discriminator@.len() == 0 {
        0
    } else {
        let r = first_empty_instr(s.drop_first());
        if r == -1 {
            -1
        } else {
            r + 1
        }
    }
}

/// A document is valid when its address, name and version are non-empty and
/// every account, instruction and event discriminator is non-empty.
pub open spec fn doc_valid(doc: IdlDocument) -> bool {
    &&& doc.address@.len() > 0
    &&& doc.metadata.name@.len() > 0
    &&& doc.metadata.version@.len() > 0
    &&& first_empty_decl(doc.accounts@) == -1
    &&& first_empty_instr(doc.instructions@) == -1
    &&& first_empty_decl(doc.events@) == -1
}

/// The error an invalid document is rejected with: the checks run in a fixed
/// order and the first failure wins, naming the first offender of its kind.
pub open spec fn expected_error(doc: IdlDocument, e: IdlError) -> bool {
    if doc.address@.len() == 0 {
        e is MissingAddress
    } else if doc.metadata.name@.len() == 0 {
        e is MissingName
    } else if doc.metadata.version@.len() == 0 {
        e is MissingVersion
    } else if first_empty_decl(doc.accounts@) != -1 {
        &&& e matches IdlError::EmptyDiscriminator { kind, name }
        &&& kind == DiscKind::Account
        &&& name@ == doc.accounts@[first_empty_decl(doc.accounts@)].name@
    } else if first_empty_instr(doc.instructions@) != -1 {
        &&& e matches IdlError::EmptyDiscriminator { kind, name }
        &&& kind == DiscKind::Instruction
        &&& name@ == doc.instructions@[first_empty_instr(doc.instructions@)].name@
    } else if first_empty_decl(doc.events@) != -1 {
        &&& e matches IdlError::EmptyDiscriminator { kind, name }
        &&& kind == DiscKind::Event
        &&& name@ == doc.events@[first_empty_decl(doc.events@)].name@
    } else {
        false
    }
}

proof fn lemma_first_empty_decl_at(s: Seq<IdlItemDecl>, i: int)
    requires
        0 <= i < s.len(),
        forall|j: int| 0 <= j < i ==> s[j].discriminator@.len() > 0,
        s[i].discriminator@.len() == 0,
    ensures
        first_empty_decl(s) == i,
    decreases i,
{
    if i > 0 {
        lemma_first_empty_decl_at(s.drop_first(), i - 1);
    }
}

proof fn lemma_first_empty_decl_none(s: Seq<IdlItemDecl>)
    requires
        forall|j: int| 0 <= j < s.len() ==> s[j].discriminator@.len() > 0,
    ensures
        first_empty_decl(s) == -1,
    decreases s.len(),
{
    if s.len() > 0 {
        lemma_first_empty_decl_none(s.drop_first());
    }
}

proof fn lemma_first_empty_instr_at(s: Seq<IdlInstruction>, i: int)
    requires
        0 <= i < s.len(),
        forall|j: int| 0 <= j < i ==> s[j].discriminator@.len() > 0,
        s[i].discriminator@.len() == 0,
    ensures
        first_empty_instr(s) == i,
    decreases i,
{
    if i > 0 {
        lemma_first_empty_instr_at(s.drop_first(), i - 1);
    }
}

proof fn lemma_first_empty_instr_none(s: Seq<IdlInstruction>)
    requires
        forall|j: int| 0 <= j < s.len() ==> s[j].discriminator@.len() > 0,
    ensures
        first_empty_instr(s) == -1,
    decreases s.len(),
{
    if s.len() > 0 {
        lemma_first_empty_instr_none(s.drop_first());
    }
}

fn find_empty_decl(s: &Vec<IdlItemDecl>) -> (r: Option<usize>)
    ensures
        match r {
            Some(i) => first_empty_decl(s@) == i && i < s@.len(),
            None => first_empty_decl(s@) == -1,
        },
{
    let mut i: usize = 0;
    while i < s.len()
        invariant
            i <= s@.len(),
            forall|j: int| 0 <= j < i ==> s@[j].discriminator@.len() > 0,
        decreases s@.len() - i,
    {
        if s[i].discriminator.len() == 0 {
            proof {
                lemma_first_empty_decl_at(s@, i as int);
            }
            return Some(i);
        }
        i = i + 1;
    }
    proof {
        lemma_first_empty_decl_none(s@);
    }
    None
}

fn find_empty_instr(s: &Vec<IdlInstruction>) -> (r: Option<usize>)
    ensures
        match r {
            Some(i) => first_empty_instr(s@) == i && i < s@.len(),
            None => first_empty_instr(s@) == -1,
        },
{
    let mut i: usize = 0;
    while i < s.len()
        invariant
            i <= s@.len(),
            forall|j: int| 0 <= j < i ==> s@[j].discriminator@.len() > 0,
        decreases s@.len() - i,
    {
        if s[i].discriminator.len() == 0 {
            proof {
                lemma_first_empty_instr_at(s@, i as int);
            }
            return Some(i);
        }
        i = i + 1;
    }
    proof {
        lemma_first_empty_instr_none(s@);
    }
    None
}

/// Checks the document's structural invariants in a fixed order and reports
/// either summary counts or the first violated invariant.
pub fn validate_idl(doc: &IdlDocument) -> (r: Result<IdlSummary, IdlError>)
    ensures
        r is Ok <==> doc_valid(*doc),
        r matches Ok(s) ==> s.accounts == doc.accounts@.len() && s.instructions
            == doc.instructions@.len() && s.types == doc.types@.len(),
        r matches Err(e) ==> expected_error(*doc, e),
{
    if doc.address.as_str().is_empty() {
        return Err(IdlError::MissingAddress);
    }
    if doc.metadata.name.as_str().is_empty() {
        return Err(IdlError::MissingName);
    }
    if doc.metadata.version.as_str().is_empty() {
        return Err(IdlError::MissingVersion);
    }
    if let Some(i) = find_empty_decl(&doc.accounts) {
        return Err(
            IdlError::EmptyDiscriminator {
                kind: DiscKind::Account,
                name: doc.accounts[i].name.clone(),
            },
        );
    }
    if let Some(i) = find_empty_instr(&doc.instructions) {
        return Err(
            IdlError::EmptyDiscriminator {
                kind: DiscKind::Instruction,
                name: doc.instructions[i].name.clone(),
            },
        );
    }
    if let Some(i) = find_empty_decl(&doc.events) {
        return Err(
            IdlError::EmptyDiscriminator {
                kind: DiscKind::Event,
                name: doc.events[i].name.clone(),
            },
        );
    }
    Ok(
        IdlSummary {
            accounts: doc.accounts.len(),
            instructions: doc.instructions.len(),
            types: doc.types.len(),
        },
    )
}

} // verus!
