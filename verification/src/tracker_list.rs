//! The trackers that a magnet link names.
use vstd::prelude::*;

verus! {

/// The trackers, already percent-encoded.
pub open spec fn trackers_spec() -> Seq<Seq<char>> {
    seq![
        "udp%3A%2F%2Ftracker.openbittorrent.com%3A80"@,
        "udp%3A%2F%2Fopentor.org%3A2710"@,
        "udp%3A%2F%2Ftracker.ccc.de%3A80"@,
        "udp%3A%2F%2Ftracker.blackunicorn.xyz%3A6969"@,
        "udp%3A%2F%2Ftracker.coppersurfer.tk%3A6969"@,
        "udp%3A%2F%2Ftracker.leechers-paradise.org%3A6969"@,
    ]
}

/// The trackers, already percent-encoded.
pub fn trackers() -> (res: Vec<String>)
    ensures
        res.deep_view() == trackers_spec(),
{
    let mut data: Vec<String> = Vec::new();
    data.push("udp%3A%2F%2Ftracker.openbittorrent.com%3A80".to_owned());
    data.push("udp%3A%2F%2Fopentor.org%3A2710".to_owned());
    data.push("udp%3A%2F%2Ftracker.ccc.de%3A80".to_owned());
    data.push("udp%3A%2F%2Ftracker.blackunicorn.xyz%3A6969".to_owned());
    data.push("udp%3A%2F%2Ftracker.coppersurfer.tk%3A6969".to_owned());
    data.push("udp%3A%2F%2Ftracker.leechers-paradise.org%3A6969".to_owned());
    assert(data.deep_view() =~= trackers_spec());
    data
}

} // verus!
