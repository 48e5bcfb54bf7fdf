//! The computable side of the invited-command transport: the service path a
//! command is posted to, and the meaning of the response status.

use vstd::prelude::*;

verus! {

/// How sending an invited command can fail, as far as the response status
/// tells.
#[derive(Clone, Copy, PartialEq, Eq, Structural, Debug)]
pub enum CommandError {
    InvitationNotFound,
    InvitationAlreadyDeleted,
    BadContent,
    UnsupportedApiVersion,
    ExpiredOrganization,
    RevokedUser,
    InvalidResponseStatus { status: u16 },
}

/// The meaning of a response status: 200 carries a response body; every
/// other status names a failure, unknown ones kept with their code.
pub open spec fn spec_classify_response_status(status: u16) -> Option<CommandError> {
    if status == 200 {
        None
    } else if status == 404 {
        Some(CommandError::InvitationNotFound)
    } else if status == 410 {
        Some(CommandError::InvitationAlreadyDeleted)
    } else if status == 415 {
        Some(CommandError::BadContent)
    } else if status == 422 {
        Some(CommandError::UnsupportedApiVersion)
    } else if status == 460 {
        Some(CommandError::ExpiredOrganization)
    } else if status == 461 {
        Some(CommandError::RevokedUser)
    } else {
        Some(CommandError::InvalidResponseStatus { status })
    }
}

/// Classifies the status of a command response.
pub fn classify_response_status(status: u16) -> (r: Option<CommandError>)
    ensures
        r == spec_classify_response_status(status),
{
    match status {
        200 => None,
        404 => Some(CommandError::InvitationNotFound),
        410 => Some(CommandError::InvitationAlreadyDeleted),
        415 => Some(CommandError::BadContent),
        422 => Some(CommandError::UnsupportedApiVersion),
        460 => Some(CommandError::ExpiredOrganization),
        461 => Some(CommandError::RevokedUser),
        _ => Some(CommandError::InvalidResponseStatus { status }),
    }
}

/// Appends `src` to `dst`.
fn push_all(dst: &mut Vec<u8>, src: &[u8])
    ensures
        final(dst)@ == old(dst)@ + src@,
{
    let mut i: usize = 0;
    while i < src.len()
        invariant
            i <= src@.len(),
            dst@ == old(dst)@ + src@.take(i as int),
        decreases src@.len() - i,
    {
        dst.push(src[i]);
        proof {
            assert(old(dst)@ + src@.take(i as int + 1) =~= (old(dst)@ + src@.take(i as int)).push(
                src@[i as int],
            ));
        }
        i += 1;
    }
    proof {
        assert(src@.take(src@.len() as int) =~= src@);
    }
}

/// The path invited commands are posted to: `/invited/`, the organization
/// identifier, `/`, the invitation token.
pub open spec fn spec_invited_path(org: Seq<u8>, token: Seq<u8>) -> Seq<u8> {
    seq![47u8, 105u8, 110u8, 118u8, 105u8, 116u8, 101u8, 100u8, 47u8] + org + seq![47u8] + token
}

/// Builds the service path for invited commands.
pub fn invited_service_path(organization_id: &[u8], token: &[u8]) -> (r: Vec<u8>)
    ensures
        r@ == spec_invited_path(organization_id@, token@),
{
    let mut r: Vec<u8> = Vec::new();
    // "/invited/"
    r.push(47);
    r.push(105);
    r.push(110);
    r.push(118);
    r.push(105);
    r.push(116);
    r.push(101);
    r.push(100);
    r.push(47);
    proof {
        assert(r@ =~= seq![47u8, 105u8, 110u8, 118u8, 105u8, 116u8, 101u8, 100u8, 47u8]);
    }
    push_all(&mut r, organization_id);
    r.push(47);
    push_all(&mut r, token);
    proof {
        assert(r@ =~= spec_invited_path(organization_id@, token@));
    }
    r
}

} // verus!
