//! Statements of actions and the committee's approval of them.

use vstd::prelude::*;

use crate::bytes::same_bytes;
use crate::id::Id;
use crate::outcome::{refuse, verdict};
use crate::text::{hex_array, hex_bytes, hex_id, hex_id_of, hex_refusal};
use vstd::utf8::encode_utf8;

verus! {

/// What the signing domain says of an action: whether its body is well formed,
/// and the statement that stands for it.
#[derive(Debug)]
pub struct Seal {
    pub body: Result<(), String>,
    pub statement: Result<Id, String>,
}

impl Seal {
    /// Why the action has no statement.
    pub open spec fn refusal(self) -> Option<Seq<char>> {
        match self.body {
            Err(message) => Some(message@),
            Ok(_) => statement_refusal(self.statement),
        }
    }

    /// A copy of the seal.
    pub fn copy(&self) -> (r: Seal)
        ensures
            r == *self,
    {
        Seal {
            body: match &self.body {
                Ok(unit) => Ok(*unit),
                Err(message) => Err(message.clone()),
            },
            statement: match &self.statement {
                Ok(value) => Ok(*value),
                Err(message) => Err(message.clone()),
            },
        }
    }

    /// The statement of a well-formed action.
    pub fn open(&self) -> (r: Result<Id, String>)
        ensures
            match r {
                Ok(statement) => self.refusal() is None && self.statement == Ok::<Id, String>(
                    statement,
                ),
                Err(message) => self.refusal() == Some(message@),
            },
    {
        match &self.body {
            Err(message) => Err(message.clone()),
            Ok(_) => statement_of(&self.statement),
        }
    }
}

/// Why there is no statement.
pub open spec fn statement_refusal(statement: Result<Id, String>) -> Option<Seq<char>> {
    match statement {
        Err(message) => Some(message@),
        Ok(_) => None,
    }
}

/// The statement, if there is one.
pub fn statement_of(statement: &Result<Id, String>) -> (r: Result<Id, String>)
    ensures
        match r {
            Ok(value) => *statement == Ok::<Id, String>(value),
            Err(message) => statement_refusal(*statement) == Some(message@),
        },
{
    match statement {
        Ok(value) => Ok(*value),
        Err(message) => Err(message.clone()),
    }
}

/// One committee node's signature, as submitted.
#[derive(Debug)]
pub struct NodeApprovalDto {
    pub node_id: String,
    pub signature: String,
}

/// The committee's approval, as submitted.
#[derive(Debug)]
pub struct ApprovalDto {
    pub statement: String,
    pub signer_epoch: u64,
    pub domain: String,
    pub before_root: String,
    pub approvals: Vec<NodeApprovalDto>,
}

/// One committee node's signature.
#[derive(Debug)]
pub struct NodeApproval {
    pub node_id: String,
    pub signature: [u8; 64],
}

/// The committee's approval of a statement on top of a state root.
#[derive(Debug)]
pub struct QuorumApproval {
    pub statement: Id,
    pub signer_epoch: u64,
    pub domain: String,
    pub before_root: Id,
    pub approvals: Vec<NodeApproval>,
}

/// What the committee's authorizer is asked: whether an approval is valid for a
/// statement on top of a state root.
#[derive(Debug)]
pub struct QuorumCheck {
    pub statement: Id,
    pub before_root: Id,
    pub approval: QuorumApproval,
}

/// What a transaction was submitted with. `before_root` is the root of the
/// state that the transaction meets, `approval` the parsed approval, and
/// `quorum` the question that the committee's authorizer has answered with yes,
/// if it did.
#[derive(Debug)]
pub struct Submission {
    pub before_root: Id,
    pub expected_before_root: Option<String>,
    pub approval: Result<ApprovalDto, String>,
    pub quorum: Option<QuorumCheck>,
}

/// Whether an approval is the one that was submitted.
pub open spec fn approval_is(dto: ApprovalDto, approval: QuorumApproval) -> bool {
    &&& approval.statement == hex_id_of(dto.statement@)
    &&& approval.signer_epoch == dto.signer_epoch
    &&& approval.domain@ == dto.domain@
    &&& approval.before_root == hex_id_of(dto.before_root@)
    &&& approval.approvals@.len() == dto.approvals@.len()
    &&& forall|i: int|
        0 <= i < dto.approvals@.len() ==> {
            &&& (#[trigger] approval.approvals@[i]).node_id@ == dto.approvals@[i].node_id@
            &&& approval.approvals@[i].signature@ == hex_bytes(
                encode_utf8(dto.approvals@[i].signature@),
            )
        }
}

/// Whether two approvals are the same.
pub open spec fn same_approval(left: QuorumApproval, right: QuorumApproval) -> bool {
    &&& left.statement == right.statement
    &&& left.signer_epoch == right.signer_epoch
    &&& left.domain@ == right.domain@
    &&& left.before_root == right.before_root
    &&& left.approvals@.len() == right.approvals@.len()
    &&& forall|i: int|
        0 <= i < left.approvals@.len() ==> {
            &&& (#[trigger] left.approvals@[i]).node_id@ == right.approvals@[i].node_id@
            &&& left.approvals@[i].signature@ == right.approvals@[i].signature@
        }
}

fn is_same_approval(left: &QuorumApproval, right: &QuorumApproval) -> (r: bool)
    ensures
        r == same_approval(*left, *right),
{
    if left.statement != right.statement || left.signer_epoch != right.signer_epoch
        || left.domain != right.domain || left.before_root != right.before_root
        || left.approvals.len() != right.approvals.len() {
        return false;
    }
    let mut index: usize = 0;
    while index < left.approvals.len()
        invariant
            index <= left.approvals@.len() == right.approvals@.len(),
            forall|i: int|
                0 <= i < index ==> {
                    &&& (#[trigger] left.approvals@[i]).node_id@ == right.approvals@[i].node_id@
                    &&& left.approvals@[i].signature@ == right.approvals@[i].signature@
                },
        decreases left.approvals@.len() - index,
    {
        let first = &left.approvals[index];
        let second = &right.approvals[index];
        if first.node_id != second.node_id || !same_bytes(&first.signature, &second.signature) {
            assert(!same_approval(*left, *right)) by {
                assert(first == left.approvals@[index as int]);
            }
            return false;
        }
        index = index + 1;
    }
    true
}

/// Whether the node at `at` has signed before.
pub open spec fn repeats_node(approvals: Seq<NodeApprovalDto>, at: int) -> bool {
    exists|i: int| 0 <= i < at && (#[trigger] approvals[i]).node_id@ == approvals[at].node_id@
}

/// Why the first `count` signatures cannot be read.
pub open spec fn signatures_refusal(approvals: Seq<NodeApprovalDto>, count: nat) -> Option<
    Seq<char>,
>
    decreases count,
{
    if count == 0 {
        None
    } else {
        let at = (count - 1) as nat;
        match signatures_refusal(approvals, at) {
            Some(message) => Some(message),
            None => if repeats_node(approvals, at as int) {
                Some("approval repeats a node identity"@)
            } else {
                hex_refusal(approvals[at as int].signature@, "approval.signature"@, 64)
            },
        }
    }
}

/// Why an approval cannot be read.
pub open spec fn approval_refusal(dto: ApprovalDto) -> Option<Seq<char>> {
    if dto.approvals@.len() > 64 {
        Some("approval contains too many signers"@)
    } else if signatures_refusal(dto.approvals@, dto.approvals@.len()) is Some {
        signatures_refusal(dto.approvals@, dto.approvals@.len())
    } else if hex_refusal(dto.statement@, "approval.statement"@, 32) is Some {
        hex_refusal(dto.statement@, "approval.statement"@, 32)
    } else {
        hex_refusal(dto.before_root@, "approval.beforeRoot"@, 32)
    }
}

/// Reads an approval. At most 64 different nodes may sign.
pub fn decode_approval(dto: &ApprovalDto) -> (r: Result<QuorumApproval, String>)
    ensures
        match r {
            Ok(approval) => approval_refusal(*dto) is None && approval_is(*dto, approval),
            Err(message) => approval_refusal(*dto) == Some(message@),
        },
{
    if dto.approvals.len() > 64 {
        return refuse("approval contains too many signers");
    }
    let mut approvals: Vec<NodeApproval> = Vec::new();
    let mut index: usize = 0;
    while index < dto.approvals.len()
        invariant
            index <= dto.approvals@.len() <= 64,
            approvals@.len() == index,
            signatures_refusal(dto.approvals@, index as nat) is None,
            forall|i: int|
                0 <= i < index ==> {
                    &&& (#[trigger] approvals@[i]).node_id == dto.approvals@[i].node_id
                    &&& approvals@[i].signature@ == hex_bytes(
                        encode_utf8(dto.approvals@[i].signature@),
                    )
                },
        decreases dto.approvals@.len() - index,
    {
        let signed = &dto.approvals[index];
        let mut earlier: usize = 0;
        while earlier < index
            invariant
                earlier <= index < dto.approvals@.len() <= 64,
                signed == dto.approvals@[index as int],
                signatures_refusal(dto.approvals@, index as nat) is None,
                forall|i: int|
                    0 <= i < earlier ==> (#[trigger] dto.approvals@[i]).node_id@
                        != signed.node_id@,
            decreases index - earlier,
        {
            if dto.approvals[earlier].node_id == signed.node_id {
                proof {
                    assert(repeats_node(dto.approvals@, index as int));
                    lemma_signatures_refusal(dto.approvals@, (index + 1) as nat);
                }
                return refuse("approval repeats a node identity");
            }
            earlier = earlier + 1;
        }
        assert(!repeats_node(dto.approvals@, index as int));
        match hex_array::<64>(signed.signature.as_str(), "approval.signature") {
            Err(message) => {
                proof {
                    lemma_signatures_refusal(dto.approvals@, (index + 1) as nat);
                }
                return Err(message);
            },
            Ok(signature) => {
                approvals.push(NodeApproval { node_id: signed.node_id.clone(), signature });
            },
        }
        index = index + 1;
    }
    let statement = hex_id(dto.statement.as_str(), "approval.statement")?;
    let before_root = hex_id(dto.before_root.as_str(), "approval.beforeRoot")?;
    Ok(
        QuorumApproval {
            statement,
            signer_epoch: dto.signer_epoch,
            domain: dto.domain.clone(),
            before_root,
            approvals,
        },
    )
}

proof fn lemma_signatures_refusal(approvals: Seq<NodeApprovalDto>, count: nat)
    requires
        count <= approvals.len(),
        signatures_refusal(approvals, count) is Some,
    ensures
        signatures_refusal(approvals, approvals.len()) == signatures_refusal(approvals, count),
    decreases approvals.len() - count,
{
    if count < approvals.len() {
        lemma_signatures_refusal(approvals, count + 1);
    }
}

impl Submission {
    /// Whether the committee was found to approve a statement on top of the state
    /// root, by the approval that was submitted.
    pub open spec fn approves(self, statement: Id) -> bool {
        match (self.approval, self.quorum) {
            (Ok(dto), Some(check)) => {
                &&& check.statement == statement
                &&& check.before_root == self.before_root
                &&& approval_is(dto, check.approval)
            },
            _ => false,
        }
    }

    /// Why the transaction is not authorized to make a statement.
    pub open spec fn refusal(self, statement: Id) -> Option<Seq<char>> {
        match self.expected_before_root {
            None => Some("expectedBeforeRoot must be a 32-byte hex string"@),
            Some(expected) => if hex_refusal(expected@, "expectedBeforeRoot"@, 32) is Some {
                hex_refusal(expected@, "expectedBeforeRoot"@, 32)
            } else if hex_id_of(expected@) != self.before_root {
                Some("transaction was built against a stale state root"@)
            } else {
                match self.approval {
                    Err(message) => Some(message@),
                    Ok(dto) => if approval_refusal(dto) is Some {
                        approval_refusal(dto)
                    } else if !self.approves(statement) {
                        Some("k-of-n DeFMI approval is invalid"@)
                    } else {
                        None
                    },
                }
            },
        }
    }
}

/// What the committee's authorizer is to be asked of a submission: whether the
/// approval as submitted is valid for the caller's statement on top of the state
/// root, whatever statement and root the approval itself names.
pub fn quorum_check(statement: Id, submission: &Submission) -> (r: Result<QuorumCheck, String>)
    ensures
        match (r, submission.approval) {
            (Ok(check), Ok(dto)) => {
                &&& approval_refusal(dto) is None
                &&& check.statement == statement
                &&& check.before_root == submission.before_root
                &&& approval_is(dto, check.approval)
            },
            (Err(message), Ok(dto)) => approval_refusal(dto) == Some(message@),
            (Ok(_), Err(_)) => false,
            (Err(message), Err(reason)) => message@ == reason@,
        },
{
    match &submission.approval {
        Err(message) => Err(message.clone()),
        Ok(dto) => {
            let approval = decode_approval(dto)?;
            Ok(QuorumCheck { statement, before_root: submission.before_root, approval })
        },
    }
}

/// Checks that a transaction was built on the current state root and that the
/// committee approved its statement there.
pub fn authorize(statement: Id, submission: &Submission) -> (r: Result<(), String>)
    ensures
        verdict(r, submission.refusal(statement)),
{
    match &submission.expected_before_root {
        None => refuse("expectedBeforeRoot must be a 32-byte hex string"),
        Some(expected) => {
            let root = hex_id(expected.as_str(), "expectedBeforeRoot")?;
            if root != submission.before_root {
                return refuse("transaction was built against a stale state root");
            }
            let asked = quorum_check(statement, submission)?;
            let approved = match &submission.quorum {
                None => false,
                Some(check) => check.statement == asked.statement && check.before_root
                    == asked.before_root && is_same_approval(&asked.approval, &check.approval),
            };
            proof {
                if submission.quorum is Some {
                    lemma_same_approval(
                        submission.approval->Ok_0,
                        asked.approval,
                        submission.quorum->0.approval,
                    );
                }
            }
            if !approved {
                return refuse("k-of-n DeFMI approval is invalid");
            }
            Ok(())
        },
    }
}

/// One approval is the submitted one exactly where the other that is, is the
/// same.
proof fn lemma_same_approval(dto: ApprovalDto, decoded: QuorumApproval, other: QuorumApproval)
    requires
        approval_is(dto, decoded),
    ensures
        approval_is(dto, other) == same_approval(decoded, other),
{
    if same_approval(decoded, other) {
        assert forall|i: int| 0 <= i < dto.approvals@.len() implies {
            &&& (#[trigger] other.approvals@[i]).node_id@ == dto.approvals@[i].node_id@
            &&& other.approvals@[i].signature@ == hex_bytes(
                encode_utf8(dto.approvals@[i].signature@),
            )
        } by {
            assert(decoded.approvals@[i].node_id@ == other.approvals@[i].node_id@);
        }
    }
    if approval_is(dto, other) {
        assert forall|i: int| 0 <= i < decoded.approvals@.len() implies {
            &&& (#[trigger] decoded.approvals@[i]).node_id@ == other.approvals@[i].node_id@
            &&& decoded.approvals@[i].signature@ == other.approvals@[i].signature@
        } by {
            assert(other.approvals@[i].node_id@ == dto.approvals@[i].node_id@);
        }
    }
}

/// Why an action is not endorsed: it has no statement, or the transaction is
/// not authorized.
pub open spec fn endorsement_refusal(seal: Seal, submission: Submission) -> Option<Seq<char>> {
    if seal.refusal() is Some {
        seal.refusal()
    } else {
        submission.refusal(seal.statement->Ok_0)
    }
}

/// The statement of an authorized action.
pub fn endorse(seal: &Seal, submission: &Submission) -> (r: Result<Id, String>)
    ensures
        match r {
            Ok(statement) => endorsement_refusal(*seal, *submission) is None && seal.statement
                == Ok::<Id, String>(statement),
            Err(message) => endorsement_refusal(*seal, *submission) == Some(message@),
        },
{
    let statement = seal.open()?;
    authorize(statement, submission)?;
    Ok(statement)
}

/// Why a statement is not authorized.
pub open spec fn authorization_refusal(
    statement: Result<Id, String>,
    submission: Submission,
) -> Option<Seq<char>> {
    if statement_refusal(statement) is Some {
        statement_refusal(statement)
    } else {
        submission.refusal(statement->Ok_0)
    }
}

/// The statement, if it is authorized.
pub fn authorize_statement(statement: &Result<Id, String>, submission: &Submission) -> (r: Result<
    Id,
    String,
>)
    ensures
        match r {
            Ok(value) => authorization_refusal(*statement, *submission) is None && *statement
                == Ok::<Id, String>(value),
            Err(message) => authorization_refusal(*statement, *submission) == Some(message@),
        },
{
    let value = statement_of(statement)?;
    authorize(value, submission)?;
    Ok(value)
}

/// An approval that can be read has at most 64 signers, all different.
pub proof fn law_signers_are_different(dto: ApprovalDto)
    requires
        approval_refusal(dto) is None,
    ensures
        dto.approvals@.len() <= 64,
        forall|i: int, j: int|
            0 <= i < j < dto.approvals@.len() ==> (#[trigger] dto.approvals@[i]).node_id@ != (
            #[trigger] dto.approvals@[j]).node_id@,
{
    assert forall|i: int, j: int| 0 <= i < j < dto.approvals@.len() implies (
    #[trigger] dto.approvals@[i]).node_id@ != (#[trigger] dto.approvals@[j]).node_id@ by {
        lemma_signers_differ(dto.approvals@, dto.approvals@.len(), i, j);
    }
}

proof fn lemma_signers_differ(approvals: Seq<NodeApprovalDto>, count: nat, i: int, j: int)
    requires
        signatures_refusal(approvals, count) is None,
        0 <= i < j < count <= approvals.len(),
    ensures
        approvals[i].node_id@ != approvals[j].node_id@,
    decreases count,
{
    if j < count - 1 {
        lemma_signers_differ(approvals, (count - 1) as nat, i, j);
    } else {
        assert(!repeats_node(approvals, j));
    }
}

} // verus!
