//! Taking part in a queue: the heartbeat by which a verifier shows that it is
//! alive, and the granting and revoking of permissions by the authority of
//! the queue. Nothing here removes a verifier that has fallen silent: a stale
//! heartbeat counts only when the verifier next tries to verify.

use crate::engine::{permission_holds, PermissionState, QueueState};
use crate::error::SwitchboardError;
use crate::instruction::AccountInfo;
use crate::permission::{AttestationPermissionAccountData, SwitchboardAttestationPermission};
use crate::verifier_record::VerifierAccountData;
use vstd::prelude::*;

verus! {

/// Whether the verifier may report at `now`: the enclave key of the verifier
/// signs; the permission record is the one of the queue for this verifier,
/// grants taking part and has not run out; and the verifier belongs to the
/// queue.
pub open spec fn may_heartbeat(
    permission_state: PermissionState,
    queue_state: QueueState,
    signer: AccountInfo,
    now: i64,
) -> bool {
    &&& signer.is_signer
    &&& signer.key@ == permission_state.verifier.enclave_signer@
    &&& permission_state.permission.is_for(
        queue_state.record.authority,
        queue_state.key,
        permission_state.verifier_key,
    )
    &&& permission_state.permission.spec_has(SwitchboardAttestationPermission::PermitNodeheartbeat)
    &&& (permission_state.permission.expiration == 0 || now < permission_state.permission.expiration)
    &&& permission_state.verifier.attestation_queue@ == queue_state.key@
}

/// Records a heartbeat of the verifier at `now`: the verifier is on its queue
/// and was last heard of at `now`; nothing else of it changes. A verifier
/// that may not report is denied.
pub fn heartbeat(
    permission_state: &PermissionState,
    queue_state: &QueueState,
    signer: &AccountInfo,
    now: i64,
) -> (r: Result<VerifierAccountData, SwitchboardError>)
    ensures
        r is Ok <==> may_heartbeat(*permission_state, *queue_state, *signer, now),
        r matches Ok(v) ==> v == (VerifierAccountData {
            is_on_queue: true,
            last_heartbeat: now,
            ..permission_state.verifier
        }),
        r matches Err(e) ==> e == SwitchboardError::PermissionDenied,
{
    let permission = &permission_state.permission;
    let verifier = &permission_state.verifier;
    if !(signer.is_signer && signer.key == verifier.enclave_signer && permission.authority
        == queue_state.record.authority && permission.granter == queue_state.key
        && permission.grantee == permission_state.verifier_key && permission.has(
        SwitchboardAttestationPermission::PermitNodeheartbeat,
    ) && (permission.expiration == 0 || now < permission.expiration) && verifier.attestation_queue
        == queue_state.key) {
        return Err(SwitchboardError::PermissionDenied);
    }
    let mut updated = *verifier;
    updated.is_on_queue = true;
    updated.last_heartbeat = now;
    Ok(updated)
}

/// A verifier that has just reported may verify: after a heartbeat at `now`
/// it is admitted at `now` and for as long afterwards as the queue allows,
/// unless its permission runs out first.
pub proof fn lemma_heartbeat_admits(
    permission_state: PermissionState,
    queue_state: QueueState,
    signer: AccountInfo,
    now: i64,
    later: i64,
)
    requires
        may_heartbeat(permission_state, queue_state, signer, now),
        now <= later,
        later - now <= queue_state.record.verifier_timeout,
        permission_state.permission.expiration == 0 || later
            < permission_state.permission.expiration,
    ensures
        permission_holds(
            queue_state,
            PermissionState {
                verifier: VerifierAccountData {
                    is_on_queue: true,
                    last_heartbeat: now,
                    ..permission_state.verifier
                },
                ..permission_state
            },
            later,
        ),
{
}

/// Whether `authority` may change the permission record: it is the authority
/// of the queue, it signs, and the record is one of this queue.
pub open spec fn may_set_permission(
    record: AttestationPermissionAccountData,
    queue_state: QueueState,
    authority: AccountInfo,
) -> bool {
    &&& authority.is_signer
    &&& authority.key@ == queue_state.record.authority@
    &&& record.authority@ == queue_state.record.authority@
    &&& record.granter@ == queue_state.key@
}

/// Whether the bit of a right is set among granted rights.
pub open spec fn bit_is_set(permissions: u32, permission: SwitchboardAttestationPermission) -> bool {
    match permission {
        SwitchboardAttestationPermission::PermitNodeheartbeat => permissions % 2 == 1,
        SwitchboardAttestationPermission::PermitQueueUsage => (permissions / 2) % 2 == 1,
    }
}

/// The granted rights after one of them has been granted or revoked.
pub open spec fn permissions_after(
    permissions: u32,
    permission: SwitchboardAttestationPermission,
    enable: bool,
) -> int {
    let has = bit_is_set(permissions, permission);
    if has == enable {
        permissions as int
    } else if enable {
        permissions + permission.spec_bit()
    } else {
        permissions - permission.spec_bit()
    }
}

/// Grants a right, or revokes it. Only the authority of the queue may, by
/// signing; anyone else is denied. The right is then granted exactly if
/// `enable` says so, and the rest of the record is as it was.
pub fn set_permission(
    record: &AttestationPermissionAccountData,
    queue_state: &QueueState,
    authority: &AccountInfo,
    permission: SwitchboardAttestationPermission,
    enable: bool,
) -> (r: Result<AttestationPermissionAccountData, SwitchboardError>)
    ensures
        r is Ok <==> may_set_permission(*record, *queue_state, *authority),
        r matches Ok(after) ==> after == (AttestationPermissionAccountData {
            permissions: permissions_after(record.permissions, permission, enable) as u32,
            ..*record
        }) && after.spec_has(permission) == enable,
        r matches Err(e) ==> e == SwitchboardError::PermissionDenied,
{
    if !(authority.is_signer && authority.key == queue_state.record.authority && record.authority
        == queue_state.record.authority && record.granter == queue_state.key) {
        return Err(SwitchboardError::PermissionDenied);
    }
    let mut after = *record;
    let bit: u32 = permission.bit();
    if record.has(permission) != enable {
        if enable {
            after.permissions = record.permissions + bit;
        } else {
            after.permissions = record.permissions - bit;
        }
    }
    Ok(after)
}

/// Granting or revoking one right leaves the other as it was.
pub proof fn lemma_set_permission_keeps_others(
    record: AttestationPermissionAccountData,
    permission: SwitchboardAttestationPermission,
    other: SwitchboardAttestationPermission,
    enable: bool,
)
    requires
        other != permission,
    ensures
        0 <= permissions_after(record.permissions, permission, enable) <= u32::MAX,
        (AttestationPermissionAccountData {
            permissions: permissions_after(record.permissions, permission, enable) as u32,
            ..record
        }).spec_has(other) == record.spec_has(other),
{
}

} // verus!
