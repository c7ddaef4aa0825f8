use vstd::prelude::*;

verus! {

/// Consumer-control keys, by their HID usage.
#[derive(Copy, Clone, Debug, PartialEq, Eq, Structural)]
pub enum MediaKey {
    Record,
    FastForward,
    Rewind,
    NextTrack,
    PrevTrack,
    Stop,
    Eject,
    RandomPlay,
    StopEject,
    PlayPause,
}

/// The HID consumer usage of a key.
pub open spec fn usage(k: MediaKey) -> u16 {
    match k {
        MediaKey::Record => 0xB2,
        MediaKey::FastForward => 0xB3,
        MediaKey::Rewind => 0xB4,
        MediaKey::NextTrack => 0xB5,
        MediaKey::PrevTrack => 0xB6,
        MediaKey::Stop => 0xB7,
        MediaKey::Eject => 0xB8,
        MediaKey::RandomPlay => 0xB9,
        MediaKey::StopEject => 0xCC,
        MediaKey::PlayPause => 0xCD,
    }
}

impl MediaKey {
    pub fn usage(self) -> (r: u16)
        ensures
            r == usage(self),
    {
        match self {
            MediaKey::Record => 0xB2,
            MediaKey::FastForward => 0xB3,
            MediaKey::Rewind => 0xB4,
            MediaKey::NextTrack => 0xB5,
            MediaKey::PrevTrack => 0xB6,
            MediaKey::Stop => 0xB7,
            MediaKey::Eject => 0xB8,
            MediaKey::RandomPlay => 0xB9,
            MediaKey::StopEject => 0xCC,
            MediaKey::PlayPause => 0xCD,
        }
    }
}

/// A consumer-control report: the usage, high byte first; all zero when no
/// key is down.
#[derive(Copy, Clone, Debug, PartialEq, Eq, Structural)]
pub struct MediaKeyHidReport(pub u8, pub u8);

impl MediaKeyHidReport {
    /// The report with no key down.
    pub fn none() -> (r: Self)
        ensures
            r == MediaKeyHidReport(0, 0),
    {
        MediaKeyHidReport(0, 0)
    }

    /// The report for the usage `u`.
    pub open spec fn of_usage(u: u16) -> MediaKeyHidReport {
        MediaKeyHidReport((u / 256) as u8, (u % 256) as u8)
    }

    pub fn from_usage(u: u16) -> (r: Self)
        ensures
            r == MediaKeyHidReport::of_usage(u),
    {
        MediaKeyHidReport((u / 256) as u8, (u % 256) as u8)
    }

    /// The report for `key` held down.
    pub fn from_key(key: MediaKey) -> (r: Self)
        ensures
            r == MediaKeyHidReport::of_usage(usage(key)),
    {
        MediaKeyHidReport::from_usage(key.usage())
    }

    /// The usage that this report carries.
    pub fn usage(&self) -> (r: u16)
        ensures
            r == self.0 * 256 + self.1,
    {
        self.0 as u16 * 256 + self.1 as u16
    }

    /// The two bytes sent to the host.
    pub fn as_bytes(&self) -> (r: [u8; 2])
        ensures
            r@ == seq![self.0, self.1],
    {
        let r = [self.0, self.1];
        assert(r@ =~= seq![self.0, self.1]);
        r
    }
}

/// The consumer-control device: the report the host has last been sent.
pub struct MediaKeys {
    pub report: MediaKeyHidReport,
}

impl MediaKeys {
    pub fn new() -> (r: Self)
        ensures
            r.report == MediaKeyHidReport(0, 0),
    {
        MediaKeys { report: MediaKeyHidReport::none() }
    }

    /// Records `report`; true when it differs from the one before, so it
    /// must be sent.
    pub fn set_report(&mut self, report: MediaKeyHidReport) -> (r: bool)
        ensures
            r == (report != old(self).report),
            final(self).report == report,
    {
        if report == self.report {
            false
        } else {
            self.report = report;
            true
        }
    }
}

} // verus!
