//! Library-wide laws, stated and proved over the request models. The
//! round-trip and parse-totality laws of the domain codes live beside their
//! types in `line` and `rail::station`.
use vstd::prelude::*;

use crate::line::spec_line_code;
use crate::line::Line;
use crate::rail::client::Client;
use crate::rail::station::spec_station_code;
use crate::requests::spec_incidents_request;
use crate::requests::spec_next_trains_request;
use crate::requests::spec_station_to_station_request;
use crate::requests::spec_stations_on_request;
use crate::station;
use crate::types::ReqModel;

verus! {

/// Query omission law, all filters absent: a station-to-station request built
/// with no filters carries no query parameters at all — the upstream then
/// lists every pair, a deliberate policy, not an error.
pub proof fn lemma_query_omission_all_absent(key: Seq<char>)
    ensures
        spec_station_to_station_request(key, None, None).query is None,
        spec_stations_on_request(key, None).query is None,
        spec_incidents_request(key, None).query == Some(Seq::<(Seq<char>, Seq<char>)>::empty()),
{
}

/// Query omission law, one filter present: supplying only the second of the
/// two station filters yields a single-element query holding just that
/// filter, under its declared name.
pub proof fn lemma_query_omission_second_only(
    key: Seq<char>,
    to: crate::rail::station::Station,
)
    ensures
        spec_station_to_station_request(key, None, Some(to)).query == Some(
            seq![("ToStation"@, spec_station_code(to))],
        ),
{
    assert(spec_station_to_station_request(key, None, Some(to)).query->Some_0 =~= seq![
        ("ToStation"@, spec_station_code(to)),
    ]);
}

/// The line filter behaves the same way: one filter yields one parameter.
pub proof fn lemma_query_omission_line(key: Seq<char>, line: Line)
    ensures
        spec_stations_on_request(key, Some(line)).query == Some(
            seq![("Line"@, spec_line_code(line))],
        ),
{
}

/// The bidirectional table never drifts: no two stations share a canonical
/// code. Follows from the round-trip law, as parsing the shared code would
/// have to yield both stations.
pub proof fn lemma_station_code_injective(a: crate::rail::station::Station, b: crate::rail::station::Station)
    requires
        spec_station_code(a) == spec_station_code(b),
    ensures
        a == b,
{
    crate::rail::station::lemma_station_round_trip(a);
    crate::rail::station::lemma_station_round_trip(b);
}

/// No two lines share a canonical code either.
pub proof fn lemma_line_code_injective(a: Line, b: Line)
    requires
        spec_line_code(a) == spec_line_code(b),
    ensures
        a == b,
{
    crate::line::lemma_line_round_trip(a);
    crate::line::lemma_line_round_trip(b);
}

/// The request the standalone station entity dispatches for next arrivals:
/// the shared builder's request for its key and code.
pub open spec fn spec_entity_next_trains(entity: station::Station) -> ReqModel {
    spec_next_trains_request(entity.api_key@, entity.station_code)
}

/// The request the station capability's default method dispatches for next
/// arrivals on a bare code.
pub open spec fn spec_capability_next_trains(
    code: crate::rail::station::Station,
    key: Seq<char>,
) -> ReqModel {
    spec_next_trains_request(key, code)
}

/// The request the top-level client dispatches for next arrivals.
pub open spec fn spec_client_next_trains(
    client: Client,
    code: crate::rail::station::Station,
) -> ReqModel {
    spec_next_trains_request(client.key@, code)
}

/// Capability reuse law: the same logical operation — next arrivals here —
/// invoked through the standalone entity wrapper, through the capability
/// default on a bare code, or through the top-level client, dispatches an
/// identical request (same key, same path, same parameters) for the same
/// inputs. Every path routes through the one shared builder.
pub proof fn lemma_capability_reuse(entity: station::Station, client: Client)
    requires
        client.key@ == entity.api_key@,
    ensures
        spec_entity_next_trains(entity) == spec_capability_next_trains(
            entity.station_code,
            entity.api_key@,
        ),
        spec_entity_next_trains(entity) == spec_client_next_trains(client, entity.station_code),
{
}

} // verus!
