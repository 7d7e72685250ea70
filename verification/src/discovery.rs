//! The one decision source discovery makes on its own: which file
//! extensions name a playable audio container. The directory walking itself
//! stays with the caller; it hands each extension in here.

use vstd::prelude::*;

verus! {

/// The fixed allow-list of audio container extensions.
pub open spec fn spec_is_playable_extension(ext: Seq<char>) -> bool {
    ||| ext == "ogg"@
    ||| ext == "mp3"@
    ||| ext == "wav"@
}

/// Whether a file extension is on the allow-list of audio containers.
pub fn is_playable_extension(ext: &str) -> (r: bool)
    ensures
        r == spec_is_playable_extension(ext@),
{
    let e = ext.to_owned();
    let ogg: String = "ogg".to_owned();
    let mp3: String = "mp3".to_owned();
    let wav: String = "wav".to_owned();
    e == ogg || e == mp3 || e == wav
}

} // verus!
