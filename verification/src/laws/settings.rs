//! What the options and descriptions of a connection come to.

use crate::transport::{Credentials, Failure, Timeouts};
use vstd::prelude::*;

verus! {

/// Where no times are given, the answer may take fifteen seconds, the first candidate
/// five, the start fifteen and the channels of the other end ten.
pub proof fn law_standard_times()
    ensures
        Timeouts::standard().negotiation == crate::transport::duration_from_secs(15),
        Timeouts::standard().candidate == crate::transport::duration_from_secs(5),
        Timeouts::standard().start == crate::transport::duration_from_secs(15),
        Timeouts::standard().channel == crate::transport::duration_from_secs(10),
{
}

/// A peer connection uses every server of the credentials, in order: found at its
/// addresses, with its user, and with its password as the credential. Without
/// credentials it uses none.
pub proof fn law_every_server_is_used(credentials: Credentials)
    ensures
        ({
            let entries = crate::transport::server_entries(crate::transport::servers_of(Some(&credentials)));
            &&& entries.len() == credentials.ice_servers@.len()
            &&& forall|i: int|
                0 <= i < entries.len() ==> #[trigger] entries[i] == crate::transport::rtc_ice_server(
                    credentials.ice_servers@[i].urls@.map_values(|url: String| url@),
                    credentials.ice_servers@[i].username@,
                    credentials.ice_servers@[i].password@,
                )
        }),
        crate::transport::server_entries(crate::transport::servers_of(None)).len() == 0,
{
    let entries = crate::transport::server_entries(crate::transport::servers_of(Some(&credentials)));
    assert forall|i: int| 0 <= i < entries.len() implies #[trigger] entries[i] == crate::transport::rtc_ice_server(
        credentials.ice_servers@[i].urls@.map_values(|url: String| url@),
        credentials.ice_servers@[i].username@,
        credentials.ice_servers@[i].password@,
    ) by {
        assert(credentials.servers()[i] == credentials.ice_servers@[i]@);
    }
}

/// The settings of a peer connection are those with one entry for each server of the
/// credentials, in order, and no other.
pub proof fn law_peer_connection_is_set_up_with_the_servers(
    credentials: Credentials,
    entries: Seq<webrtc::peer_connection::RTCIceServer>,
)
    requires
        entries.len() == credentials.ice_servers@.len(),
        forall|i: int|
            0 <= i < entries.len() ==> #[trigger] entries[i] == crate::transport::rtc_ice_server(
                credentials.ice_servers@[i].urls@.map_values(|url: String| url@),
                credentials.ice_servers@[i].username@,
                credentials.ice_servers@[i].password@,
            ),
    ensures
        crate::transport::configuration_for(Some(&credentials)) == crate::transport::configuration_with_servers(entries),
        crate::transport::configuration_for(None) == crate::transport::configuration_with_servers(Seq::empty()),
{
    law_every_server_is_used(credentials);
    assert(crate::transport::server_entries(crate::transport::servers_of(Some(&credentials))) =~= entries);
    assert(crate::transport::server_entries(crate::transport::servers_of(None)) =~= Seq::empty());
}

/// The other end is told of a failure exactly if it has a code: that code, about this
/// connection, to that network.
pub proof fn law_report_says_the_code(failure: Failure, connection_id: u64, network_id: String)
    ensures
        failure.code is None <==> failure.report(connection_id, network_id) is None,
        failure.code matches Some(code) ==> (failure.report(connection_id, network_id) matches Some(report)
            && report.code == code && report.connection_id == connection_id && report.network_id@ == network_id@),
{
}

/// A description names a candidate exactly if its text holds the name of the candidate
/// attribute at its beginning or right after a line feed.
pub proof fn law_candidate_lines_are_found(sdp: Seq<char>)
    ensures
        crate::transport::description::holds_candidate(sdp) == exists|before: Seq<char>, rest: Seq<char>|
            (before.len() == 0 || before.last() == '\n') && sdp == #[trigger] (before + "a=candidate:"@ + rest),
{
    let name = "a=candidate:"@;
    if crate::transport::description::holds_candidate(sdp) {
        let at = choose|at: int| crate::transport::description::candidate_at(sdp, at);
        let before = sdp.take(at);
        let rest = sdp.skip(at + name.len());
        assert(sdp =~= before + name + rest);
    }
    if exists|before: Seq<char>, rest: Seq<char>|
        (before.len() == 0 || before.last() == '\n') && sdp == #[trigger] (before + "a=candidate:"@ + rest) {
        let (before, rest) = choose|before: Seq<char>, rest: Seq<char>|
            (before.len() == 0 || before.last() == '\n') && sdp == #[trigger] (before + "a=candidate:"@ + rest);
        let at = before.len() as int;
        assert(sdp.subrange(at, at + name.len()) =~= name);
        assert(crate::transport::description::candidate_at(sdp, at));
    }
}

} // verus!
