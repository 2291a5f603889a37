use vstd::prelude::*;

use crate::models::CurrentlyPlaying;
use crate::poller::Signal;
use crate::surface::{draw_title_and_artist, with_title_and_artist, Surface};

verus! {

/// The artist line shown for a snapshot: the first credited artist, or
/// nothing when none is credited.
pub open spec fn shown_artist(cp: CurrentlyPlaying) -> Seq<char> {
    if cp.track.artists@.len() > 0 {
        cp.track.artists@[0].name@
    } else {
        Seq::empty()
    }
}

/// The surface pixels after the display loop handles `signal`: a new song
/// redraws the title and artist; the end of playback blanks that region;
/// a progress update leaves the surface as it is.
pub open spec fn after_signal(px: Seq<u16>, w: int, signal: Signal) -> Seq<u16> {
    match signal {
        Signal::ChangeSong(Some(cp)) => with_title_and_artist(px, w, cp.track.name@, shown_artist(cp)),
        Signal::ChangeSong(None) => with_title_and_artist(px, w, Seq::empty(), Seq::empty()),
        Signal::UpdateProgress(_) => px,
    }
}

/// Redraws what one signal from the poller changes on the display.
pub fn apply_signal(display: &mut Surface, signal: Signal)
    requires
        old(display).wf(),
        old(display).width > 0,
    ensures
        final(display).wf(),
        final(display).width == old(display).width,
        final(display).height == old(display).height,
        final(display).pixels@ == after_signal(old(display).pixels@, old(display).width as int, signal),
{
    match signal {
        Signal::ChangeSong(Some(cp)) => {
            let artist = if cp.track.artists.len() > 0 {
                cp.track.artists[0].name.clone()
            } else {
                String::new()
            };
            draw_title_and_artist(display, cp.track.name, artist);
        },
        Signal::ChangeSong(None) => {
            draw_title_and_artist(display, String::new(), String::new());
        },
        Signal::UpdateProgress(_) => {},
    }
}

} // verus!
