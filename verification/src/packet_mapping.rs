use crate::json::{json_document, member, parse_json, spec_member, JsonValue};
use crate::protocol::{ProtocolVersion, State};
use crate::text::{concat, starts_with};
use vstd::prelude::*;

verus! {

/// Why a packet report could not be read.
#[derive(Clone, Copy, Debug, PartialEq, Eq, Structural)]
pub enum PacketMappingError {
    /// The text is not JSON.
    InvalidJson,
    /// The document is not an object.
    TopLevelNotObject,
    /// A state is not an object.
    StateNotObject,
    /// A direction is not an object.
    DirectionNotObject,
    /// A packet is not an object.
    PacketNotObject,
    /// A `protocol_id` is not an unsigned integer.
    ProtocolIdNotU64,
    /// A `protocol_id` is above 255.
    ProtocolIdOutOfRange,
}

impl PacketMappingError {
    pub open spec fn spec_message(self) -> Seq<char> {
        match self {
            PacketMappingError::InvalidJson => "invalid JSON"@,
            PacketMappingError::TopLevelNotObject => "Expected a JSON object at the top level"@,
            PacketMappingError::StateNotObject => "Expected state value to be an object"@,
            PacketMappingError::DirectionNotObject => "Expected direction value to be an object"@,
            PacketMappingError::PacketNotObject => "Expected packet value to be an object"@,
            PacketMappingError::ProtocolIdNotU64 => "protocol_id is not a valid u64"@,
            PacketMappingError::ProtocolIdOutOfRange => "protocol_id is out of u8 range"@,
        }
    }

    /// The text the error is shown with.
    pub fn message(&self) -> (s: &'static str)
        ensures
            s@ == self.spec_message(),
    {
        match self {
            PacketMappingError::InvalidJson => "invalid JSON",
            PacketMappingError::TopLevelNotObject => "Expected a JSON object at the top level",
            PacketMappingError::StateNotObject => "Expected state value to be an object",
            PacketMappingError::DirectionNotObject => "Expected direction value to be an object",
            PacketMappingError::PacketNotObject => "Expected packet value to be an object",
            PacketMappingError::ProtocolIdNotU64 => "protocol_id is not a valid u64",
            PacketMappingError::ProtocolIdOutOfRange => "protocol_id is out of u8 range",
        }
    }
}

/// The map that a log of insertions leaves: a later insertion of a name wins.
pub open spec fn spec_log_map(log: Seq<(String, u8)>) -> Map<Seq<char>, u8>
    decreases log.len(),
{
    if log.len() == 0 {
        Map::empty()
    } else {
        spec_log_map(log.drop_last()).insert(log.last().0@, log.last().1)
    }
}

/// Whether position `i` holds the last insertion of its name.
pub open spec fn is_last_of(log: Seq<(String, u8)>, i: int) -> bool {
    forall|j: int| i < j < log.len() ==> #[trigger] log[j].0@ != log[i].0@
}

/// A name is in the map exactly when the log inserts it, and it maps to the
/// value of its last insertion.
pub proof fn lemma_log_map(log: Seq<(String, u8)>, k: Seq<char>)
    ensures
        spec_log_map(log).contains_key(k) <==> exists|i: int| 0 <= i < log.len() && #[trigger] log[i].0@ == k,
        forall|i: int| 0 <= i < log.len() && #[trigger] log[i].0@ == k && is_last_of(log, i) ==> spec_log_map(log)[k] == log[i].1,
    decreases log.len(),
{
    if log.len() > 0 {
        let prev = log.drop_last();
        lemma_log_map(prev, k);
        assert forall|i: int| 0 <= i < log.len() && #[trigger] log[i].0@ == k && is_last_of(log, i) implies spec_log_map(log)[k] == log[i].1 by {
            if i < log.len() - 1 {
                assert(log[log.len() - 1].0@ != k);
                assert(prev[i] == log[i]);
                assert forall|j: int| i < j < prev.len() implies #[trigger] prev[j].0@ != prev[i].0@ by {
                    assert(prev[j] == log[j]);
                }
            }
        }
        if exists|i: int| 0 <= i < log.len() && #[trigger] log[i].0@ == k {
            let i = choose|i: int| 0 <= i < log.len() && #[trigger] log[i].0@ == k;
            if i < log.len() - 1 {
                assert(prev[i] == log[i]);
            }
        }
        if exists|i: int| 0 <= i < prev.len() && #[trigger] prev[i].0@ == k {
            let i = choose|i: int| 0 <= i < prev.len() && #[trigger] prev[i].0@ == k;
            assert(log[i] == prev[i]);
        }
    }
}

/// The ids of the packets of a protocol version, by report name
/// (`state/direction/identifier`).
pub struct PacketMapping {
    log: Vec<(String, u8)>,
}

impl View for PacketMapping {
    type V = Map<Seq<char>, u8>;

    closed spec fn view(&self) -> Map<Seq<char>, u8> {
        spec_log_map(self.log@)
    }
}

/// Whether `s` begins with `prefix`.
pub open spec fn spec_starts_with(s: Seq<char>, prefix: Seq<char>) -> bool {
    prefix.len() <= s.len() && s.take(prefix.len() as int) == prefix
}

impl PacketMapping {
    /// An empty mapping.
    pub fn new() -> (m: PacketMapping)
        ensures
            m@ == Map::<Seq<char>, u8>::empty(),
    {
        PacketMapping { log: Vec::new() }
    }

    /// Maps `name` to `id`, replacing what it mapped to.
    pub fn insert(&mut self, name: String, id: u8)
        ensures
            final(self)@ == old(self)@.insert(name@, id),
    {
        let ghost old_log = self.log@;
        self.log.push((name, id));
        assert(self.log@.drop_last() =~= old_log);
    }

    /// The id of the packet with the given report name.
    pub fn get_id(&self, name: &str) -> (id: Option<u8>)
        ensures
            self@.contains_key(name@) ==> id == Some(self@[name@]),
            !self@.contains_key(name@) ==> id is None,
    {
        proof { lemma_log_map(self.log@, name@); }
        let mut i = self.log.len();
        while i > 0
            invariant
                i <= self.log@.len(),
                forall|j: int| i <= j < self.log@.len() ==> #[trigger] self.log@[j].0@ != name@,
            decreases i,
        {
            i = i - 1;
            if crate::text::str_eq(self.log[i].0.as_str(), name) {
                assert(self.log@[i as int].0@ == name@);
                assert(is_last_of(self.log@, i as int));
                proof { lemma_log_map(self.log@, name@); }
                return Some(self.log[i].1);
            }
        }
        None
    }

    /// A report name that maps to `id` and begins with `prefix`, if any.
    pub fn get_name(&self, id: u8, prefix: &str) -> (name: Option<String>)
        ensures
            name matches Some(n) ==> self@.contains_key(n@) && self@[n@] == id && spec_starts_with(n@, prefix@),
            name is None ==> forall|k: Seq<char>| #[trigger] self@.contains_key(k) ==> !(self@[k] == id && spec_starts_with(k, prefix@)),
    {
        let n = self.log.len();
        let mut i = n;
        while i > 0
            invariant
                n == self.log@.len(),
                i <= n,
                forall|j: int| i <= j < n && #[trigger] is_last_of(self.log@, j) ==> !(self.log@[j].1 == id && spec_starts_with(self.log@[j].0@, prefix@)),
            decreases i,
        {
            i = i - 1;
            let entry = &self.log[i];
            if entry.1 == id && starts_with(entry.0.as_str(), prefix) {
                // Check that no later insertion replaced this name.
                let mut j = i + 1;
                let mut replaced = false;
                while j < n
                    invariant
                        n == self.log@.len(),
                        i < j <= n,
                        !replaced ==> forall|m: int| i < m < j ==> #[trigger] self.log@[m].0@ != self.log@[i as int].0@,
                        replaced ==> !is_last_of(self.log@, i as int),
                    decreases n - j,
                {
                    if crate::text::str_eq(self.log[j].0.as_str(), self.log[i].0.as_str()) {
                        replaced = true;
                    }
                    j = j + 1;
                }
                if !replaced {
                    proof { lemma_log_map(self.log@, self.log@[i as int].0@); }
                    return Some(self.log[i].0.clone());
                }
            }
        }
        proof {
            assert forall|k: Seq<char>| #[trigger] self@.contains_key(k) implies !(self@[k] == id && spec_starts_with(k, prefix@)) by {
                lemma_log_map(self.log@, k);
                let j = choose|j: int| 0 <= j < n && #[trigger] self.log@[j].0@ == k;
                let last = lemma_last_index(self.log@, k, j);
                assert(is_last_of(self.log@, last));
            }
        }
        None
    }
}

/// Among the insertions of a name there is a last one.
pub proof fn lemma_last_index(log: Seq<(String, u8)>, k: Seq<char>, j: int) -> (last: int)
    requires
        0 <= j < log.len(),
        log[j].0@ == k,
    ensures
        j <= last < log.len(),
        log[last].0@ == k,
        is_last_of(log, last),
    decreases log.len() - j,
{
    if exists|m: int| j < m < log.len() && #[trigger] log[m].0@ == k {
        let m = choose|m: int| j < m < log.len() && #[trigger] log[m].0@ == k;
        lemma_last_index(log, k, m)
    } else {
        j
    }
}

/// The number of members of an object: its names and values paired.
pub open spec fn member_count(keys: Seq<String>, values: Seq<JsonValue>) -> int {
    if keys.len() <= values.len() { keys.len() as int } else { values.len() as int }
}

/// What one packet of a report adds: its `protocol_id`, when it has one.
pub open spec fn spec_packet_step(acc: Map<Seq<char>, u8>, name: Seq<char>, packet: JsonValue) -> Result<Map<Seq<char>, u8>, PacketMappingError> {
    match packet {
        JsonValue::Object(fk, fv) => match spec_member(fk@, fv@, "protocol_id"@) {
            None => Ok(acc),
            Some(JsonValue::Number(Some(id))) => if id <= 255 {
                Ok(acc.insert(name, id as u8))
            } else {
                Err(PacketMappingError::ProtocolIdOutOfRange)
            },
            Some(_) => Err(PacketMappingError::ProtocolIdNotU64),
        },
        _ => Err(PacketMappingError::PacketNotObject),
    }
}

/// The first `n` packets of a direction, read in order; the first error stops.
pub open spec fn spec_fold_packets(acc: Map<Seq<char>, u8>, prefix: Seq<char>, keys: Seq<String>, values: Seq<JsonValue>, n: int) -> Result<Map<Seq<char>, u8>, PacketMappingError>
    decreases n,
{
    if n <= 0 {
        Ok(acc)
    } else {
        match spec_fold_packets(acc, prefix, keys, values, n - 1) {
            Err(e) => Err(e),
            Ok(m) => spec_packet_step(m, prefix + keys[n - 1]@, values[n - 1]),
        }
    }
}

/// What one direction of a state adds.
pub open spec fn spec_direction_step(acc: Map<Seq<char>, u8>, state: Seq<char>, direction: Seq<char>, packets: JsonValue) -> Result<Map<Seq<char>, u8>, PacketMappingError> {
    match packets {
        JsonValue::Object(pk, pv) => spec_fold_packets(acc, state + "/"@ + direction + "/"@, pk@, pv@, member_count(pk@, pv@)),
        _ => Err(PacketMappingError::DirectionNotObject),
    }
}

/// The first `n` directions of a state, read in order.
pub open spec fn spec_fold_directions(acc: Map<Seq<char>, u8>, state: Seq<char>, keys: Seq<String>, values: Seq<JsonValue>, n: int) -> Result<Map<Seq<char>, u8>, PacketMappingError>
    decreases n,
{
    if n <= 0 {
        Ok(acc)
    } else {
        match spec_fold_directions(acc, state, keys, values, n - 1) {
            Err(e) => Err(e),
            Ok(m) => spec_direction_step(m, state, keys[n - 1]@, values[n - 1]),
        }
    }
}

/// What one state of the report adds.
pub open spec fn spec_state_step(acc: Map<Seq<char>, u8>, state: Seq<char>, directions: JsonValue) -> Result<Map<Seq<char>, u8>, PacketMappingError> {
    match directions {
        JsonValue::Object(dk, dv) => spec_fold_directions(acc, state, dk@, dv@, member_count(dk@, dv@)),
        _ => Err(PacketMappingError::StateNotObject),
    }
}

/// The first `n` states of the report, read in order.
pub open spec fn spec_fold_states(acc: Map<Seq<char>, u8>, keys: Seq<String>, values: Seq<JsonValue>, n: int) -> Result<Map<Seq<char>, u8>, PacketMappingError>
    decreases n,
{
    if n <= 0 {
        Ok(acc)
    } else {
        match spec_fold_states(acc, keys, values, n - 1) {
            Err(e) => Err(e),
            Ok(m) => spec_state_step(m, keys[n - 1]@, values[n - 1]),
        }
    }
}

/// The packet ids that a report holds: every packet with a `protocol_id`,
/// named `state/direction/identifier`, read in order; a later packet of the
/// same name wins. The first malformed part found is the error.
pub open spec fn spec_packet_report(report: JsonValue) -> Result<Map<Seq<char>, u8>, PacketMappingError> {
    match report {
        JsonValue::Object(sk, sv) => spec_fold_states(Map::empty(), sk@, sv@, member_count(sk@, sv@)),
        _ => Err(PacketMappingError::TopLevelNotObject),
    }
}

pub proof fn lemma_fold_packets_err(acc: Map<Seq<char>, u8>, prefix: Seq<char>, keys: Seq<String>, values: Seq<JsonValue>, m: int, n: int)
    requires
        0 <= m <= n,
        spec_fold_packets(acc, prefix, keys, values, m) is Err,
    ensures
        spec_fold_packets(acc, prefix, keys, values, n) == spec_fold_packets(acc, prefix, keys, values, m),
    decreases n - m,
{
    if m < n {
        lemma_fold_packets_err(acc, prefix, keys, values, m, n - 1);
    }
}

pub proof fn lemma_fold_directions_err(acc: Map<Seq<char>, u8>, state: Seq<char>, keys: Seq<String>, values: Seq<JsonValue>, m: int, n: int)
    requires
        0 <= m <= n,
        spec_fold_directions(acc, state, keys, values, m) is Err,
    ensures
        spec_fold_directions(acc, state, keys, values, n) == spec_fold_directions(acc, state, keys, values, m),
    decreases n - m,
{
    if m < n {
        lemma_fold_directions_err(acc, state, keys, values, m, n - 1);
    }
}

pub proof fn lemma_fold_states_err(acc: Map<Seq<char>, u8>, keys: Seq<String>, values: Seq<JsonValue>, m: int, n: int)
    requires
        0 <= m <= n,
        spec_fold_states(acc, keys, values, m) is Err,
    ensures
        spec_fold_states(acc, keys, values, n) == spec_fold_states(acc, keys, values, m),
    decreases n - m,
{
    if m < n {
        lemma_fold_states_err(acc, keys, values, m, n - 1);
    }
}

/// Whether a packet of a report has a `protocol_id` that is an integer above
/// 255.
pub open spec fn has_id_above_u8(packet: JsonValue) -> bool {
    match packet {
        JsonValue::Object(fk, fv) => match spec_member(fk@, fv@, "protocol_id"@) {
            Some(JsonValue::Number(Some(id))) => id > 255,
            _ => false,
        },
        _ => false,
    }
}

/// Whether one of the first `n` packets of a direction has a `protocol_id`
/// above 255.
pub open spec fn some_packet_above_u8(values: Seq<JsonValue>, n: int) -> bool {
    exists|k: int| 0 <= k < n && #[trigger] has_id_above_u8(values[k])
}

/// Whether a direction of a report holds a packet whose `protocol_id` is
/// above 255.
pub open spec fn direction_has_id_above_u8(direction: JsonValue) -> bool {
    match direction {
        JsonValue::Object(pk, pv) => some_packet_above_u8(pv@, member_count(pk@, pv@)),
        _ => false,
    }
}

/// Whether one of the first `n` directions holds a packet whose
/// `protocol_id` is above 255.
pub open spec fn some_direction_above_u8(values: Seq<JsonValue>, n: int) -> bool {
    exists|j: int| 0 <= j < n && #[trigger] direction_has_id_above_u8(values[j])
}

/// Whether a state of a report holds a packet whose `protocol_id` is above
/// 255.
pub open spec fn state_has_id_above_u8(state: JsonValue) -> bool {
    match state {
        JsonValue::Object(dk, dv) => some_direction_above_u8(dv@, member_count(dk@, dv@)),
        _ => false,
    }
}

/// Whether a report holds, somewhere among its states and directions, a
/// packet whose `protocol_id` is above 255.
pub open spec fn report_has_id_above_u8(report: JsonValue) -> bool {
    match report {
        JsonValue::Object(sk, sv) => exists|i: int| 0 <= i < member_count(sk@, sv@) && #[trigger] state_has_id_above_u8(sv@[i]),
        _ => false,
    }
}

/// Reading one packet: an object without a `protocol_id` adds nothing; one
/// whose `protocol_id` is an integer from 0 to 255 maps the packet's name to
/// it and leaves every other name as it was; one whose `protocol_id` is an
/// integer above 255 is refused as out of range, and nothing else is.
pub proof fn lemma_packet_id_range(acc: Map<Seq<char>, u8>, name: Seq<char>, packet: JsonValue)
    ensures
        match packet {
            JsonValue::Object(fk, fv) => match spec_member(fk@, fv@, "protocol_id"@) {
                Some(JsonValue::Number(Some(id))) => {
                    &&& 0 <= id <= 255 ==> (spec_packet_step(acc, name, packet) matches Ok(m) && m.contains_key(name)
                        && m[name] as int == id as int
                        && forall|other: Seq<char>| other != name ==> (#[trigger] m.contains_key(other) == acc.contains_key(other)
                            && (acc.contains_key(other) ==> m[other] == acc[other])))
                    &&& id > 255 ==> spec_packet_step(acc, name, packet) == Err::<Map<Seq<char>, u8>, PacketMappingError>(
                        PacketMappingError::ProtocolIdOutOfRange,
                    )
                },
                None => spec_packet_step(acc, name, packet) == Ok::<Map<Seq<char>, u8>, PacketMappingError>(acc),
                _ => true,
            },
            _ => true,
        },
        spec_packet_step(acc, name, packet) == Err::<Map<Seq<char>, u8>, PacketMappingError>(PacketMappingError::ProtocolIdOutOfRange)
            ==> has_id_above_u8(packet),
{
}

proof fn lemma_fold_packets_out_of_range(acc: Map<Seq<char>, u8>, prefix: Seq<char>, keys: Seq<String>, values: Seq<JsonValue>, n: int)
    requires
        spec_fold_packets(acc, prefix, keys, values, n) == Err::<Map<Seq<char>, u8>, PacketMappingError>(PacketMappingError::ProtocolIdOutOfRange),
    ensures
        some_packet_above_u8(values, n),
    decreases n,
{
    if n > 0 {
        match spec_fold_packets(acc, prefix, keys, values, n - 1) {
            Err(_) => {
                lemma_fold_packets_out_of_range(acc, prefix, keys, values, n - 1);
                let k = choose|k: int| 0 <= k < n - 1 && #[trigger] has_id_above_u8(values[k]);
                assert(has_id_above_u8(values[k]));
            },
            Ok(m) => {
                lemma_packet_id_range(m, prefix + keys[n - 1]@, values[n - 1]);
                assert(has_id_above_u8(values[n - 1]));
            },
        }
    }
}

proof fn lemma_fold_directions_out_of_range(acc: Map<Seq<char>, u8>, state: Seq<char>, keys: Seq<String>, values: Seq<JsonValue>, n: int)
    requires
        spec_fold_directions(acc, state, keys, values, n) == Err::<Map<Seq<char>, u8>, PacketMappingError>(PacketMappingError::ProtocolIdOutOfRange),
    ensures
        some_direction_above_u8(values, n),
    decreases n,
{
    if n > 0 {
        match spec_fold_directions(acc, state, keys, values, n - 1) {
            Err(_) => {
                lemma_fold_directions_out_of_range(acc, state, keys, values, n - 1);
                let j = choose|j: int| 0 <= j < n - 1 && #[trigger] direction_has_id_above_u8(values[j]);
                assert(direction_has_id_above_u8(values[j]));
            },
            Ok(m) => {
                match values[n - 1] {
                    JsonValue::Object(pk, pv) => {
                        lemma_fold_packets_out_of_range(m, state + "/"@ + keys[n - 1]@ + "/"@, pk@, pv@, member_count(pk@, pv@));
                    },
                    _ => {},
                }
                assert(direction_has_id_above_u8(values[n - 1]));
            },
        }
    }
}

proof fn lemma_fold_states_out_of_range(acc: Map<Seq<char>, u8>, keys: Seq<String>, values: Seq<JsonValue>, n: int)
    requires
        spec_fold_states(acc, keys, values, n) == Err::<Map<Seq<char>, u8>, PacketMappingError>(PacketMappingError::ProtocolIdOutOfRange),
    ensures
        exists|i: int| 0 <= i < n && #[trigger] state_has_id_above_u8(values[i]),
    decreases n,
{
    if n > 0 {
        match spec_fold_states(acc, keys, values, n - 1) {
            Err(_) => {
                lemma_fold_states_out_of_range(acc, keys, values, n - 1);
                let i = choose|i: int| 0 <= i < n - 1 && #[trigger] state_has_id_above_u8(values[i]);
                assert(state_has_id_above_u8(values[i]));
            },
            Ok(m) => {
                match values[n - 1] {
                    JsonValue::Object(dk, dv) => {
                        lemma_fold_directions_out_of_range(m, keys[n - 1]@, dk@, dv@, member_count(dk@, dv@));
                    },
                    _ => {},
                }
                assert(state_has_id_above_u8(values[n - 1]));
            },
        }
    }
}

/// A report is refused as holding an out-of-range id only when one of its
/// packets really has a `protocol_id` above 255; ids from 0 to 255 are never
/// refused.
pub proof fn lemma_out_of_range_only_above_u8(report: JsonValue)
    ensures
        spec_packet_report(report) == Err::<Map<Seq<char>, u8>, PacketMappingError>(PacketMappingError::ProtocolIdOutOfRange)
            ==> report_has_id_above_u8(report),
{
    match report {
        JsonValue::Object(sk, sv) => {
            if spec_packet_report(report) == Err::<Map<Seq<char>, u8>, PacketMappingError>(PacketMappingError::ProtocolIdOutOfRange) {
                lemma_fold_states_out_of_range(Map::empty(), sk@, sv@, member_count(sk@, sv@));
            }
        },
        _ => {},
    }
}

/// The `protocol_id` of a packet of a report, when it is an unsigned integer.
pub open spec fn packet_id_of(packet: JsonValue) -> Option<u64> {
    match packet {
        JsonValue::Object(fk, fv) => match spec_member(fk@, fv@, "protocol_id"@) {
            Some(JsonValue::Number(Some(id))) => Some(id),
            _ => None,
        },
        _ => None,
    }
}

/// Whether a packet can be read: an object whose `protocol_id`, if it has
/// one, is an integer from 0 to 255.
pub open spec fn packet_readable(packet: JsonValue) -> bool {
    match packet {
        JsonValue::Object(fk, fv) => match spec_member(fk@, fv@, "protocol_id"@) {
            None => true,
            Some(JsonValue::Number(Some(id))) => id <= 255,
            _ => false,
        },
        _ => false,
    }
}

/// Whether a direction can be read: an object of readable packets.
pub open spec fn direction_readable(direction: JsonValue) -> bool {
    match direction {
        JsonValue::Object(pk, pv) => forall|k: int| 0 <= k < member_count(pk@, pv@) ==> #[trigger] packet_readable(pv@[k]),
        _ => false,
    }
}

/// Whether a state can be read: an object of readable directions.
pub open spec fn state_readable(state: JsonValue) -> bool {
    match state {
        JsonValue::Object(dk, dv) => forall|j: int| 0 <= j < member_count(dk@, dv@) ==> #[trigger] direction_readable(dv@[j]),
        _ => false,
    }
}

/// Whether a report can be read: an object of readable states.
pub open spec fn report_readable(report: JsonValue) -> bool {
    match report {
        JsonValue::Object(sk, sv) => forall|i: int| 0 <= i < member_count(sk@, sv@) ==> #[trigger] state_readable(sv@[i]),
        _ => false,
    }
}

/// Whether every one of the first `n` packets that has an id is named in `m`.
pub open spec fn packets_named_in(m: Map<Seq<char>, u8>, prefix: Seq<char>, keys: Seq<String>, values: Seq<JsonValue>, n: int) -> bool {
    forall|k: int| 0 <= k < n && (#[trigger] packet_id_of(values[k])) is Some ==> m.contains_key(prefix + keys[k]@)
}

/// Whether every name of `a` is a name of `b`.
pub open spec fn names_kept(a: Map<Seq<char>, u8>, b: Map<Seq<char>, u8>) -> bool {
    forall|k: Seq<char>| #[trigger] a.contains_key(k) ==> b.contains_key(k)
}

proof fn lemma_fold_packets_read(acc: Map<Seq<char>, u8>, prefix: Seq<char>, keys: Seq<String>, values: Seq<JsonValue>, n: int)
    ensures
        (forall|k: int| 0 <= k < n ==> #[trigger] packet_readable(values[k])) ==> spec_fold_packets(acc, prefix, keys, values, n) is Ok,
        spec_fold_packets(acc, prefix, keys, values, n) matches Ok(m) ==> (names_kept(acc, m) && packets_named_in(m, prefix, keys, values, n)),
    decreases n,
{
    if n > 0 {
        lemma_fold_packets_read(acc, prefix, keys, values, n - 1);
        if forall|k: int| 0 <= k < n ==> #[trigger] packet_readable(values[k]) {
            assert(packet_readable(values[n - 1]));
            assert(forall|k: int| 0 <= k < n - 1 ==> #[trigger] packet_readable(values[k]));
            assert(spec_fold_packets(acc, prefix, keys, values, n - 1) is Ok);
            lemma_packet_id_range(spec_fold_packets(acc, prefix, keys, values, n - 1)->Ok_0, prefix + keys[n - 1]@, values[n - 1]);
        }
        match spec_fold_packets(acc, prefix, keys, values, n - 1) {
            Ok(m0) => {
                lemma_packet_id_range(m0, prefix + keys[n - 1]@, values[n - 1]);
                match spec_fold_packets(acc, prefix, keys, values, n) {
                    Ok(m) => {
                        assert(names_kept(m0, m));
                        assert forall|k: int| 0 <= k < n && (#[trigger] packet_id_of(values[k])) is Some implies m.contains_key(prefix + keys[k]@) by {
                            if k < n - 1 {
                                assert(m0.contains_key(prefix + keys[k]@));
                            }
                        }
                    },
                    Err(_) => {},
                }
            },
            Err(_) => {},
        }
    }
}

proof fn lemma_fold_directions_read(acc: Map<Seq<char>, u8>, state: Seq<char>, keys: Seq<String>, values: Seq<JsonValue>, n: int)
    ensures
        (forall|j: int| 0 <= j < n ==> #[trigger] direction_readable(values[j])) ==> spec_fold_directions(acc, state, keys, values, n) is Ok,
        spec_fold_directions(acc, state, keys, values, n) matches Ok(m) ==> (names_kept(acc, m) && forall|j: int| 0 <= j < n ==> match #[trigger] values[j] {
            JsonValue::Object(pk, pv) => packets_named_in(m, state + "/"@ + keys[j]@ + "/"@, pk@, pv@, member_count(pk@, pv@)),
            _ => true,
        }),
    decreases n,
{
    if n > 0 {
        lemma_fold_directions_read(acc, state, keys, values, n - 1);
        if forall|j: int| 0 <= j < n ==> #[trigger] direction_readable(values[j]) {
            assert(direction_readable(values[n - 1]));
            assert(forall|j: int| 0 <= j < n - 1 ==> #[trigger] direction_readable(values[j]));
            assert(spec_fold_directions(acc, state, keys, values, n - 1) is Ok);
            match values[n - 1] {
                JsonValue::Object(pk, pv) => {
                    lemma_fold_packets_read(
                        spec_fold_directions(acc, state, keys, values, n - 1)->Ok_0,
                        state + "/"@ + keys[n - 1]@ + "/"@,
                        pk@,
                        pv@,
                        member_count(pk@, pv@),
                    );
                },
                _ => {},
            }
        }
        match spec_fold_directions(acc, state, keys, values, n - 1) {
            Ok(m0) => {
                match values[n - 1] {
                    JsonValue::Object(pk, pv) => {
                        let prefix = state + "/"@ + keys[n - 1]@ + "/"@;
                        lemma_fold_packets_read(m0, prefix, pk@, pv@, member_count(pk@, pv@));
                        match spec_fold_directions(acc, state, keys, values, n) {
                            Ok(m) => {
                                assert forall|j: int| 0 <= j < n implies match #[trigger] values[j] {
                                    JsonValue::Object(pk2, pv2) => packets_named_in(m, state + "/"@ + keys[j]@ + "/"@, pk2@, pv2@, member_count(pk2@, pv2@)),
                                    _ => true,
                                } by {
                                    if j < n - 1 {
                                        match values[j] {
                                            JsonValue::Object(pk2, pv2) => {
                                                let p2 = state + "/"@ + keys[j]@ + "/"@;
                                                assert(packets_named_in(m0, p2, pk2@, pv2@, member_count(pk2@, pv2@)));
                                                assert forall|k: int| 0 <= k < member_count(pk2@, pv2@) && (#[trigger] packet_id_of(pv2@[k])) is Some
                                                    implies m.contains_key(p2 + pk2@[k]@) by {
                                                    assert(m0.contains_key(p2 + pk2@[k]@));
                                                }
                                            },
                                            _ => {},
                                        }
                                    }
                                }
                            },
                            Err(_) => {},
                        }
                    },
                    _ => {},
                }
            },
            Err(_) => {},
        }
    }
}

proof fn lemma_fold_states_read(acc: Map<Seq<char>, u8>, keys: Seq<String>, values: Seq<JsonValue>, n: int)
    ensures
        (forall|i: int| 0 <= i < n ==> #[trigger] state_readable(values[i])) ==> spec_fold_states(acc, keys, values, n) is Ok,
        spec_fold_states(acc, keys, values, n) matches Ok(m) ==> (names_kept(acc, m) && forall|i: int| 0 <= i < n ==> match #[trigger] values[i] {
            JsonValue::Object(dk, dv) => forall|j: int| 0 <= j < member_count(dk@, dv@) ==> match #[trigger] dv@[j] {
                JsonValue::Object(pk, pv) => packets_named_in(m, keys[i]@ + "/"@ + dk@[j]@ + "/"@, pk@, pv@, member_count(pk@, pv@)),
                _ => true,
            },
            _ => true,
        }),
    decreases n,
{
    if n > 0 {
        lemma_fold_states_read(acc, keys, values, n - 1);
        if forall|i: int| 0 <= i < n ==> #[trigger] state_readable(values[i]) {
            assert(state_readable(values[n - 1]));
            assert(forall|i: int| 0 <= i < n - 1 ==> #[trigger] state_readable(values[i]));
            assert(spec_fold_states(acc, keys, values, n - 1) is Ok);
            match values[n - 1] {
                JsonValue::Object(dk, dv) => {
                    lemma_fold_directions_read(
                        spec_fold_states(acc, keys, values, n - 1)->Ok_0,
                        keys[n - 1]@,
                        dk@,
                        dv@,
                        member_count(dk@, dv@),
                    );
                },
                _ => {},
            }
        }
        match spec_fold_states(acc, keys, values, n - 1) {
            Ok(m0) => {
                match values[n - 1] {
                    JsonValue::Object(dk, dv) => {
                        lemma_fold_directions_read(m0, keys[n - 1]@, dk@, dv@, member_count(dk@, dv@));
                        match spec_fold_states(acc, keys, values, n) {
                            Ok(m) => {
                                assert forall|i: int| 0 <= i < n implies match #[trigger] values[i] {
                                    JsonValue::Object(dk2, dv2) => forall|j: int| 0 <= j < member_count(dk2@, dv2@) ==> match #[trigger] dv2@[j] {
                                        JsonValue::Object(pk, pv) => packets_named_in(m, keys[i]@ + "/"@ + dk2@[j]@ + "/"@, pk@, pv@, member_count(pk@, pv@)),
                                        _ => true,
                                    },
                                    _ => true,
                                } by {
                                    if i < n - 1 {
                                        match values[i] {
                                            JsonValue::Object(dk2, dv2) => {
                                                assert forall|j: int| 0 <= j < member_count(dk2@, dv2@) implies match #[trigger] dv2@[j] {
                                                    JsonValue::Object(pk, pv) => packets_named_in(m, keys[i]@ + "/"@ + dk2@[j]@ + "/"@, pk@, pv@, member_count(pk@, pv@)),
                                                    _ => true,
                                                } by {
                                                    match dv2@[j] {
                                                        JsonValue::Object(pk, pv) => {
                                                            let p2 = keys[i]@ + "/"@ + dk2@[j]@ + "/"@;
                                                            assert(packets_named_in(m0, p2, pk@, pv@, member_count(pk@, pv@)));
                                                            assert forall|k: int| 0 <= k < member_count(pk@, pv@) && (#[trigger] packet_id_of(pv@[k])) is Some
                                                                implies m.contains_key(p2 + pk@[k]@) by {
                                                                assert(m0.contains_key(p2 + pk@[k]@));
                                                            }
                                                        },
                                                        _ => {},
                                                    }
                                                }
                                            },
                                            _ => {},
                                        }
                                    }
                                }
                            },
                            Err(_) => {},
                        }
                    },
                    _ => {},
                }
            },
            Err(_) => {},
        }
    }
}

/// A report whose states and directions are objects and whose packets are
/// objects with a `protocol_id`, if any, from 0 to 255 is read without error,
/// and every packet of it that has an id is found in the mapping under its
/// name `state/direction/packet`.
pub proof fn lemma_readable_report_is_read(report: JsonValue)
    ensures
        report_readable(report) ==> spec_packet_report(report) is Ok,
        spec_packet_report(report) matches Ok(m) ==> match report {
            JsonValue::Object(sk, sv) => forall|i: int| 0 <= i < member_count(sk@, sv@) ==> match #[trigger] sv@[i] {
                JsonValue::Object(dk, dv) => forall|j: int| 0 <= j < member_count(dk@, dv@) ==> match #[trigger] dv@[j] {
                    JsonValue::Object(pk, pv) => forall|k: int| 0 <= k < member_count(pk@, pv@) && (#[trigger] packet_id_of(pv@[k])) is Some
                        ==> m.contains_key(sk@[i]@ + "/"@ + dk@[j]@ + "/"@ + pk@[k]@),
                    _ => true,
                },
                _ => true,
            },
            _ => true,
        },
{
    match report {
        JsonValue::Object(sk, sv) => {
            lemma_fold_states_read(Map::empty(), sk@, sv@, member_count(sk@, sv@));
        },
        _ => {},
    }
}

impl PacketMapping {
    /// Reads the packets of one direction into the mapping.
    fn read_packets(&mut self, prefix: &str, keys: &Vec<String>, values: &Vec<JsonValue>) -> (r: Result<(), PacketMappingError>)
        ensures
            match spec_fold_packets(old(self)@, prefix@, keys@, values@, member_count(keys@, values@)) {
                Ok(m) => r is Ok && final(self)@ == m,
                Err(e) => r == Err::<(), PacketMappingError>(e),
            },
    {
        let n = if keys.len() <= values.len() { keys.len() } else { values.len() };
        let ghost start = self@;
        let mut i: usize = 0;
        while i < n
            invariant
                n == member_count(keys@, values@),
                n <= keys@.len(),
                n <= values@.len(),
                i <= n,
                start == old(self)@,
                spec_fold_packets(start, prefix@, keys@, values@, i as int) == Ok::<Map<Seq<char>, u8>, PacketMappingError>(self@),
            decreases n - i,
        {
            let ghost before = self@;
            match &values[i] {
                JsonValue::Object(fk, fv) => {
                    match member(fk, fv, "protocol_id") {
                        None => {},
                        Some(JsonValue::Number(Some(id))) => {
                            if *id <= 255 {
                                let name = concat(prefix, keys[i].as_str());
                                self.insert(name, *id as u8);
                            } else {
                                assert(spec_fold_packets(start, prefix@, keys@, values@, i + 1) == Err::<Map<Seq<char>, u8>, PacketMappingError>(PacketMappingError::ProtocolIdOutOfRange));
                                proof { lemma_fold_packets_err(start, prefix@, keys@, values@, i + 1, n as int); }
                                return Err(PacketMappingError::ProtocolIdOutOfRange);
                            }
                        },
                        Some(_) => {
                            assert(spec_fold_packets(start, prefix@, keys@, values@, i + 1) == Err::<Map<Seq<char>, u8>, PacketMappingError>(PacketMappingError::ProtocolIdNotU64));
                            proof { lemma_fold_packets_err(start, prefix@, keys@, values@, i + 1, n as int); }
                            return Err(PacketMappingError::ProtocolIdNotU64);
                        },
                    }
                },
                _ => {
                    assert(spec_fold_packets(start, prefix@, keys@, values@, i + 1) == Err::<Map<Seq<char>, u8>, PacketMappingError>(PacketMappingError::PacketNotObject));
                    proof { lemma_fold_packets_err(start, prefix@, keys@, values@, i + 1, n as int); }
                    return Err(PacketMappingError::PacketNotObject);
                },
            }
            i = i + 1;
        }
        Ok(())
    }

    /// Reads the directions of one state into the mapping.
    fn read_directions(&mut self, state: &str, keys: &Vec<String>, values: &Vec<JsonValue>) -> (r: Result<(), PacketMappingError>)
        ensures
            match spec_fold_directions(old(self)@, state@, keys@, values@, member_count(keys@, values@)) {
                Ok(m) => r is Ok && final(self)@ == m,
                Err(e) => r == Err::<(), PacketMappingError>(e),
            },
    {
        let n = if keys.len() <= values.len() { keys.len() } else { values.len() };
        let ghost start = self@;
        let mut i: usize = 0;
        while i < n
            invariant
                n == member_count(keys@, values@),
                n <= keys@.len(),
                n <= values@.len(),
                i <= n,
                start == old(self)@,
                spec_fold_directions(start, state@, keys@, values@, i as int) == Ok::<Map<Seq<char>, u8>, PacketMappingError>(self@),
            decreases n - i,
        {
            match &values[i] {
                JsonValue::Object(pk, pv) => {
                    let with_slash = concat(state, "/");
                    let with_direction = concat(with_slash.as_str(), keys[i].as_str());
                    let prefix = concat(with_direction.as_str(), "/");
                    match self.read_packets(prefix.as_str(), pk, pv) {
                        Ok(()) => {},
                        Err(e) => {
                            assert(spec_fold_directions(start, state@, keys@, values@, i + 1) == Err::<Map<Seq<char>, u8>, PacketMappingError>(e));
                            proof { lemma_fold_directions_err(start, state@, keys@, values@, i + 1, n as int); }
                            return Err(e);
                        },
                    }
                },
                _ => {
                    assert(spec_fold_directions(start, state@, keys@, values@, i + 1) == Err::<Map<Seq<char>, u8>, PacketMappingError>(PacketMappingError::DirectionNotObject));
                    proof { lemma_fold_directions_err(start, state@, keys@, values@, i + 1, n as int); }
                    return Err(PacketMappingError::DirectionNotObject);
                },
            }
            i = i + 1;
        }
        Ok(())
    }

    /// Builds the mapping from a packet report: an object of states, each an
    /// object of directions, each an object of packets, each an object that may
    /// hold a `protocol_id`.
    pub fn from_json_value(report: &JsonValue) -> (r: Result<PacketMapping, PacketMappingError>)
        ensures
            match spec_packet_report(*report) {
                Ok(m) => r matches Ok(mapping) && mapping@ == m,
                Err(e) => r matches Err(f) && f == e,
            },
    {
        match report {
            JsonValue::Object(keys, values) => {
                let mut mapping = PacketMapping::new();
                let n = if keys.len() <= values.len() { keys.len() } else { values.len() };
                let mut i: usize = 0;
                while i < n
                    invariant
                        n == member_count(keys@, values@),
                        n <= keys@.len(),
                        n <= values@.len(),
                        i <= n,
                        *report == JsonValue::Object(*keys, *values),
                        spec_fold_states(Map::empty(), keys@, values@, i as int) == Ok::<Map<Seq<char>, u8>, PacketMappingError>(mapping@),
                    decreases n - i,
                {
                    match &values[i] {
                        JsonValue::Object(dk, dv) => {
                            match mapping.read_directions(keys[i].as_str(), dk, dv) {
                                Ok(()) => {},
                                Err(e) => {
                                    assert(spec_fold_states(Map::empty(), keys@, values@, i + 1) == Err::<Map<Seq<char>, u8>, PacketMappingError>(e));
                                    proof { lemma_fold_states_err(Map::empty(), keys@, values@, i + 1, n as int); }
                                    return Err(e);
                                },
                            }
                        },
                        _ => {
                            assert(spec_fold_states(Map::empty(), keys@, values@, i + 1) == Err::<Map<Seq<char>, u8>, PacketMappingError>(PacketMappingError::StateNotObject));
                            proof { lemma_fold_states_err(Map::empty(), keys@, values@, i + 1, n as int); }
                            return Err(PacketMappingError::StateNotObject);
                        },
                    }
                    i = i + 1;
                }
                Ok(mapping)
            },
            _ => Err(PacketMappingError::TopLevelNotObject),
        }
    }

    /// Builds the mapping from the JSON text of a packet report.
    pub fn from_json_str(json_str: &str) -> (r: Result<PacketMapping, PacketMappingError>)
        ensures
            match json_document(json_str@) {
                None => r matches Err(e) && e == PacketMappingError::InvalidJson,
                Some(report) => match spec_packet_report(report) {
                    Ok(m) => r matches Ok(mapping) && mapping@ == m,
                    Err(e) => r matches Err(f) && f == e,
                },
            },
    {
        match parse_json(json_str) {
            None => Err(PacketMappingError::InvalidJson),
            Some(report) => PacketMapping::from_json_value(&report),
        }
    }
}

/// Why a packet name or id could not be looked up.
#[derive(Clone, Copy, Debug, PartialEq, Eq, Structural)]
pub enum PacketMapError {
    /// No packet report is loaded for the protocol version.
    ReportNotLoaded,
}

/// The packet reports of every protocol version that was loaded.
pub struct PacketMap {
    root_directory: String,
    reports: Vec<(ProtocolVersion, PacketMapping)>,
}

/// The report loaded for a version, if any: the first one loaded.
pub open spec fn spec_report_of(reports: Seq<(ProtocolVersion, PacketMapping)>, v: ProtocolVersion) -> Option<Map<Seq<char>, u8>>
    decreases reports.len(),
{
    if reports.len() == 0 {
        None
    } else if reports[0].0 == v {
        Some(reports[0].1@)
    } else {
        spec_report_of(reports.drop_first(), v)
    }
}

impl PacketMap {
    /// The reports loaded so far, by protocol version.
    pub closed spec fn reports(&self) -> Seq<(ProtocolVersion, PacketMapping)> {
        self.reports@
    }

    pub closed spec fn spec_root_directory(&self) -> Seq<char> {
        self.root_directory@
    }

    /// A map with no report loaded; reports are read from `root_directory`.
    pub fn new(root_directory: String) -> (m: PacketMap)
        ensures
            m.reports().len() == 0,
            m.spec_root_directory() == root_directory@,
    {
        PacketMap { root_directory, reports: Vec::new() }
    }

    pub fn root_directory(&self) -> (s: &str)
        ensures
            s@ == self.spec_root_directory(),
    {
        self.root_directory.as_str()
    }

    /// The path of the packet report of a version below the root directory.
    pub fn report_path(&self, protocol_version: ProtocolVersion) -> (p: String)
        ensures
            p@ == self.spec_root_directory() + "/"@ + protocol_version.spec_directory_name() + "/reports/packets.json"@,
    {
        let a = concat(self.root_directory.as_str(), "/");
        let b = concat(a.as_str(), protocol_version.directory_name());
        concat(b.as_str(), "/reports/packets.json")
    }

    /// Whether a report is loaded for the version.
    pub fn is_loaded(&self, protocol_version: ProtocolVersion) -> (b: bool)
        ensures
            b == (spec_report_of(self.reports(), protocol_version) is Some),
    {
        let mut i: usize = 0;
        assert(self.reports@.skip(0) =~= self.reports@);
        while i < self.reports.len()
            invariant
                i <= self.reports@.len(),
                spec_report_of(self.reports@, protocol_version) == spec_report_of(self.reports@.skip(i as int), protocol_version),
            decreases self.reports@.len() - i,
        {
            assert(self.reports@.skip(i as int).drop_first() =~= self.reports@.skip(i + 1));
            if self.reports[i].0 == protocol_version {
                return true;
            }
            i = i + 1;
        }
        false
    }

    /// Adds the report of a version; a report already loaded for it stays.
    pub fn insert_mapping(&mut self, protocol_version: ProtocolVersion, mapping: PacketMapping)
        ensures
            forall|v: ProtocolVersion| #[trigger] spec_report_of(final(self).reports(), v)
                == if v == protocol_version && spec_report_of(old(self).reports(), v) is None {
                    Some(mapping@)
                } else {
                    spec_report_of(old(self).reports(), v)
                },
            final(self).spec_root_directory() == old(self).spec_root_directory(),
    {
        let ghost before = self.reports@;
        self.reports.push((protocol_version, mapping));
        proof { lemma_report_of_push(before, (protocol_version, mapping)); }
    }

    /// The report of a version.
    pub fn get_mapping(&self, protocol_version: ProtocolVersion) -> (r: Result<&PacketMapping, PacketMapError>)
        ensures
            match spec_report_of(self.reports(), protocol_version) {
                Some(m) => r matches Ok(mapping) && mapping@ == m,
                None => r == Err::<&PacketMapping, PacketMapError>(PacketMapError::ReportNotLoaded),
            },
    {
        let mut i: usize = 0;
        assert(self.reports@.skip(0) =~= self.reports@);
        while i < self.reports.len()
            invariant
                i <= self.reports@.len(),
                spec_report_of(self.reports@, protocol_version) == spec_report_of(self.reports@.skip(i as int), protocol_version),
            decreases self.reports@.len() - i,
        {
            assert(self.reports@.skip(i as int).drop_first() =~= self.reports@.skip(i + 1));
            if self.reports[i].0 == protocol_version {
                return Ok(&self.reports[i].1);
            }
            i = i + 1;
        }
        Err(PacketMapError::ReportNotLoaded)
    }

    /// The report name of a serverbound packet of the given state and id.
    pub fn get_packet_name(&self, protocol_version: ProtocolVersion, state: State, packet_id: u8) -> (r: Result<Option<String>, PacketMapError>)
        ensures
            match spec_report_of(self.reports(), protocol_version) {
                None => r == Err::<Option<String>, PacketMapError>(PacketMapError::ReportNotLoaded),
                Some(m) => r matches Ok(name) && match name {
                    Some(n) => m.contains_key(n@) && m[n@] == packet_id && spec_starts_with(n@, state.spec_name() + "/serverbound"@),
                    None => forall|k: Seq<char>| #[trigger] m.contains_key(k) ==> !(m[k] == packet_id && spec_starts_with(k, state.spec_name() + "/serverbound"@)),
                },
            },
    {
        let prefix = concat(state.name(), "/serverbound");
        let mapping = self.get_mapping(protocol_version)?;
        Ok(mapping.get_name(packet_id, prefix.as_str()))
    }

    /// The id of the packet with the given report name.
    pub fn get_packet_id(&self, protocol_version: ProtocolVersion, packet_path: &str) -> (r: Result<Option<u8>, PacketMapError>)
        ensures
            match spec_report_of(self.reports(), protocol_version) {
                None => r == Err::<Option<u8>, PacketMapError>(PacketMapError::ReportNotLoaded),
                Some(m) => r == Ok::<Option<u8>, PacketMapError>(if m.contains_key(packet_path@) { Some(m[packet_path@]) } else { None }),
            },
    {
        let mapping = self.get_mapping(protocol_version)?;
        Ok(mapping.get_id(packet_path))
    }
}

pub proof fn lemma_report_of_push(reports: Seq<(ProtocolVersion, PacketMapping)>, last: (ProtocolVersion, PacketMapping))
    ensures
        forall|v: ProtocolVersion| #[trigger] spec_report_of(reports.push(last), v)
            == if v == last.0 && spec_report_of(reports, v) is None {
                Some(last.1@)
            } else {
                spec_report_of(reports, v)
            },
    decreases reports.len(),
{
    if reports.len() > 0 {
        lemma_report_of_push(reports.drop_first(), last);
        assert(reports.push(last).drop_first() =~= reports.drop_first().push(last));
        assert forall|v: ProtocolVersion| #[trigger] spec_report_of(reports.push(last), v)
            == if v == last.0 && spec_report_of(reports, v) is None {
                Some(last.1@)
            } else {
                spec_report_of(reports, v)
            } by {
            assert(reports.push(last)[0] == reports[0]);
            assert(spec_report_of(reports.drop_first().push(last), v) == if v == last.0 && spec_report_of(reports.drop_first(), v) is None {
                Some(last.1@)
            } else {
                spec_report_of(reports.drop_first(), v)
            });
        }
    } else {
        assert(reports.push(last).drop_first() =~= reports);
    }
}

} // verus!
