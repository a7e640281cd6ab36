use vstd::prelude::*;
use vstd::string::*;

verus! {

/// What caused a device to publish a location report.
#[derive(Clone, Copy, Debug, PartialEq, Eq, Structural)]
pub enum ReportTrigger {
    /// Ping issued randomly by background task (iOS, Android)
    Ping,
    /// Circular region enter/leave event (iOS, Android)
    CircularRegion,
    /// Circular region enter/leave event for +follow regions (iOS)
    CircularRegionWithFollowRegions,
    /// Beacon region enter/leave event (iOS)
    BeaconRegion,
    /// Response to a reportLocation cmd message (iOS, Android)
    ReportLocationResponse,
    /// Manual publish requested by the user (iOS, Android)
    UserRequest,
    /// Timer based publish in move (iOS)
    TimerBased,
    /// Updated by Settings/Privacy/Locations Services/System Services/Frequent Locations monitoring (iOS)
    FrequentLocationsMonitoring,
    /// The trigger is not known to the server
    UnknownTrigger,
}

/// The trigger that a single code character stands for.
pub open spec fn trigger_of_char(c: char) -> ReportTrigger {
    if c == 'p' {
        ReportTrigger::Ping
    } else if c == 'c' {
        ReportTrigger::CircularRegion
    } else if c == 'C' {
        ReportTrigger::CircularRegionWithFollowRegions
    } else if c == 'b' {
        ReportTrigger::BeaconRegion
    } else if c == 'r' {
        ReportTrigger::ReportLocationResponse
    } else if c == 'u' {
        ReportTrigger::UserRequest
    } else if c == 't' {
        ReportTrigger::TimerBased
    } else if c == 'v' {
        ReportTrigger::FrequentLocationsMonitoring
    } else {
        ReportTrigger::UnknownTrigger
    }
}

/// The trigger that a code string stands for: only one-character codes are
/// known, anything else is an unknown trigger.
pub open spec fn trigger_of_code(code: Seq<char>) -> ReportTrigger {
    if code.len() == 1 {
        trigger_of_char(code[0])
    } else {
        ReportTrigger::UnknownTrigger
    }
}

/// The one-character code under which a trigger is stored.
pub open spec fn code_char_of(t: ReportTrigger) -> char {
    match t {
        ReportTrigger::Ping => 'p',
        ReportTrigger::CircularRegion => 'c',
        ReportTrigger::CircularRegionWithFollowRegions => 'C',
        ReportTrigger::BeaconRegion => 'b',
        ReportTrigger::ReportLocationResponse => 'r',
        ReportTrigger::UserRequest => 'u',
        ReportTrigger::TimerBased => 't',
        ReportTrigger::FrequentLocationsMonitoring => 'v',
        ReportTrigger::UnknownTrigger => '?',
    }
}

impl ReportTrigger {
    /// Maps a trigger code to its trigger. Unknown codes are accepted and
    /// give `UnknownTrigger`.
    pub fn from_code(code: &str) -> (r: ReportTrigger)
        ensures
            r == trigger_of_code(code@),
    {
        if code.unicode_len() != 1 {
            return ReportTrigger::UnknownTrigger;
        }
        match code.get_char(0) {
            'p' => ReportTrigger::Ping,
            'c' => ReportTrigger::CircularRegion,
            'C' => ReportTrigger::CircularRegionWithFollowRegions,
            'b' => ReportTrigger::BeaconRegion,
            'r' => ReportTrigger::ReportLocationResponse,
            'u' => ReportTrigger::UserRequest,
            't' => ReportTrigger::TimerBased,
            'v' => ReportTrigger::FrequentLocationsMonitoring,
            _ => ReportTrigger::UnknownTrigger,
        }
    }

    /// The one-character code of this trigger, as it is stored.
    pub fn code(&self) -> (r: char)
        ensures
            r == code_char_of(*self),
    {
        match self {
            ReportTrigger::Ping => 'p',
            ReportTrigger::CircularRegion => 'c',
            ReportTrigger::CircularRegionWithFollowRegions => 'C',
            ReportTrigger::BeaconRegion => 'b',
            ReportTrigger::ReportLocationResponse => 'r',
            ReportTrigger::UserRequest => 'u',
            ReportTrigger::TimerBased => 't',
            ReportTrigger::FrequentLocationsMonitoring => 'v',
            ReportTrigger::UnknownTrigger => '?',
        }
    }
}

impl<'a> From<&'a str> for ReportTrigger {
    fn from(value: &'a str) -> (r: ReportTrigger)
        ensures
            r == trigger_of_code(value@),
    {
        ReportTrigger::from_code(value)
    }
}

impl<'a> vstd::std_specs::convert::FromSpecImpl<&'a str> for ReportTrigger {
    open spec fn obeys_from_spec() -> bool {
        true
    }

    open spec fn from_spec(v: &'a str) -> ReportTrigger {
        trigger_of_code(v@)
    }
}

/// Every trigger's code maps back to that trigger.
pub proof fn lemma_code_maps_back(t: ReportTrigger)
    ensures
        trigger_of_code(seq![code_char_of(t)]) == t,
{
}

} // verus!
