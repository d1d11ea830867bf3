//! When a transaction is approved.

use vstd::prelude::*;
use vstd::utf8::encode_utf8;

use crate::decode::spelling::hex_of;
use crate::endorsement::{
    endorsement_refusal, repeats_node, signatures_refusal, NodeApprovalDto, Seal, Submission,
};
use crate::id::Id;
use crate::text::{hex_bytes, hex_id_of};

verus! {

/// Whether every signer is a different node and its signature can be read.
pub open spec fn signed_by_different_nodes(approvals: Seq<NodeApprovalDto>, count: int) -> bool {
    &&& forall|i: int| 0 <= i < count ==> hex_of((#[trigger] approvals[i]).signature@, 64)
    &&& forall|i: int, j: int|
        0 <= i < j < count ==> (#[trigger] approvals[i]).node_id@ != (
        #[trigger] approvals[j]).node_id@
}

proof fn lemma_signed(approvals: Seq<NodeApprovalDto>, count: nat)
    requires
        count <= approvals.len(),
    ensures
        (signatures_refusal(approvals, count) is None) == signed_by_different_nodes(
            approvals,
            count as int,
        ),
    decreases count,
{
    if count > 0 {
        let at = (count - 1) as nat;
        lemma_signed(approvals, at);
        if signed_by_different_nodes(approvals, count as int) {
            assert(signed_by_different_nodes(approvals, at as int));
            assert(!repeats_node(approvals, at as int));
            assert(hex_of(approvals[at as int].signature@, 64));
        }
        if signed_by_different_nodes(approvals, at as int) && !repeats_node(approvals, at as int)
            && hex_of(approvals[at as int].signature@, 64) {
            assert forall|i: int, j: int| 0 <= i < j < count implies (
            #[trigger] approvals[i]).node_id@ != (#[trigger] approvals[j]).node_id@ by {
                if j == at {
                    assert(approvals[i].node_id@ != approvals[at as int].node_id@);
                }
            }
        }
    }
}

/// A statement is authorized exactly where the transaction was built on the current
/// root, its approval can be read and has at most 64 different signers, and the
/// committee approved exactly that statement, on that root, by exactly the approval
/// that was submitted.
pub proof fn law_when_a_statement_is_authorized(submission: Submission, statement: Id)
    ensures
        ({
            let expected = submission.expected_before_root->0@;
            let dto = submission.approval->Ok_0;
            let check = submission.quorum->0;
            (submission.refusal(statement) is None) == {
                &&& submission.expected_before_root is Some
                &&& hex_of(expected, 32)
                &&& hex_id_of(expected) == submission.before_root
                &&& submission.approval is Ok
                &&& dto.approvals@.len() <= 64
                &&& signed_by_different_nodes(dto.approvals@, dto.approvals@.len() as int)
                &&& hex_of(dto.statement@, 32)
                &&& hex_of(dto.before_root@, 32)
                &&& submission.quorum is Some
                &&& check.statement == statement
                &&& check.before_root == submission.before_root
                &&& check.approval.statement == hex_id_of(dto.statement@)
                &&& check.approval.before_root == hex_id_of(dto.before_root@)
                &&& check.approval.signer_epoch == dto.signer_epoch
                &&& check.approval.domain@ == dto.domain@
                &&& check.approval.approvals@.len() == dto.approvals@.len()
                &&& forall|i: int|
                    0 <= i < dto.approvals@.len() ==> {
                        let signed = #[trigger] check.approval.approvals@[i];
                        &&& signed.node_id@ == dto.approvals@[i].node_id@
                        &&& signed.signature@ == hex_bytes(
                            encode_utf8(dto.approvals@[i].signature@),
                        )
                    }
            }
        }),
{
    if submission.approval is Ok {
        let approvals = submission.approval->Ok_0.approvals@;
        lemma_signed(approvals, approvals.len());
    }
}

/// An action is endorsed exactly where it is well formed, has a statement, and the
/// statement is authorized.
pub proof fn law_when_an_action_is_endorsed(seal: Seal, submission: Submission)
    ensures
        (endorsement_refusal(seal, submission) is None) == {
            &&& seal.body is Ok
            &&& seal.statement is Ok
            &&& submission.refusal(seal.statement->Ok_0) is None
        },
{
}

} // verus!
