//! Track metadata: the three properties the bridge reads from the player's
//! property bag, and their parse into a displayable record.

use vstd::prelude::*;

verus! {

/// The three track properties the bridge reads from the player's property
/// bag, already reduced to plain values: a property that is absent from the
/// bag, or carries a value of the wrong type, is `None`.
pub struct TrackProperties {
    pub title: Option<String>,
    pub album: Option<String>,
    pub artist: Option<Vec<String>>,
}

/// Mathematical model of `TrackProperties`: each property as an optional
/// character sequence (the artist as a sequence of names).
pub ghost struct TrackPropertiesView {
    pub title: Option<Seq<char>>,
    pub album: Option<Seq<char>>,
    pub artist: Option<Seq<Seq<char>>>,
}

impl View for TrackProperties {
    type V = TrackPropertiesView;

    open spec fn view(&self) -> TrackPropertiesView {
        TrackPropertiesView {
            title: self.title.deep_view(),
            album: self.album.deep_view(),
            artist: self.artist.deep_view(),
        }
    }
}

impl DeepView for TrackProperties {
    type V = TrackPropertiesView;

    open spec fn deep_view(&self) -> TrackPropertiesView {
        self.view()
    }
}

/// One track's identifying metadata; fields default to the empty string when
/// the player did not report them.
#[derive(Debug, Clone, PartialEq)]
pub struct MediaInfo {
    pub title: String,
    pub artist: String,
    pub album: String,
}

/// Mathematical model of `MediaInfo`.
pub ghost struct MediaInfoView {
    pub title: Seq<char>,
    pub artist: Seq<char>,
    pub album: Seq<char>,
}

impl View for MediaInfo {
    type V = MediaInfoView;

    open spec fn view(&self) -> MediaInfoView {
        MediaInfoView { title: self.title@, artist: self.artist@, album: self.album@ }
    }
}

impl DeepView for MediaInfo {
    type V = MediaInfoView;

    open spec fn deep_view(&self) -> MediaInfoView {
        self.view()
    }
}

/// The artist names joined with `" & "` between each pair.
pub open spec fn join_amp(names: Seq<Seq<char>>) -> Seq<char>
    decreases names.len(),
{
    if names.len() == 0 {
        Seq::empty()
    } else if names.len() == 1 {
        names[0]
    } else {
        join_amp(names.drop_last()) + " & "@ + names.last()
    }
}

/// Whether the property bag reported none of the three track properties.
pub open spec fn all_absent(p: TrackPropertiesView) -> bool {
    p.title is None && p.album is None && p.artist is None
}

/// The record parsed from a property bag that reported at least one
/// property: absent fields default to empty, artist names are joined.
pub open spec fn media_of(p: TrackPropertiesView) -> MediaInfoView {
    MediaInfoView {
        title: match p.title {
            Some(t) => t,
            None => Seq::empty(),
        },
        album: match p.album {
            Some(a) => a,
            None => Seq::empty(),
        },
        artist: match p.artist {
            Some(names) => join_amp(names),
            None => Seq::empty(),
        },
    }
}

/// Joins artist names with `" & "`.
fn join_artists(names: &Vec<String>) -> (r: String)
    ensures
        r@ == join_amp(names.deep_view()),
{
    let mut out = String::new();
    let mut i: usize = 0;
    while i < names.len()
        invariant
            i <= names.len(),
            out@ == join_amp(names.deep_view().take(i as int)),
        decreases names.len() - i,
    {
        if i > 0 {
            out.append(" & ");
        }
        out.append(names[i].as_str());
        proof {
            let v = names.deep_view();
            assert(v.take(i + 1).drop_last() =~= v.take(i as int));
            assert(v.take(i + 1).last() == v[i as int]);
        }
        i += 1;
    }
    proof {
        assert(names.deep_view().take(names.len() as int) =~= names.deep_view());
    }
    out
}

/// Parses the reduced property bag. Returns `None` ("no metadata") exactly
/// when all three properties are absent; otherwise a record in which each
/// absent field is the empty string and the artist names are joined with
/// `" & "`.
pub fn parse_metadata(props: TrackProperties) -> (r: Option<MediaInfo>)
    ensures
        r is None <==> all_absent(props@),
        r matches Some(mi) ==> mi@ == media_of(props@),
{
    match (props.title, props.album, props.artist) {
        (None, None, None) => None,
        (title, album, artist) => Some(
            MediaInfo {
                title: match title {
                    Some(t) => t,
                    None => String::new(),
                },
                album: match album {
                    Some(a) => a,
                    None => String::new(),
                },
                artist: match artist {
                    Some(names) => join_artists(&names),
                    None => String::new(),
                },
            },
        ),
    }
}

/// The one-line description of a track: `"{artist} - {title}"`, followed by
/// `" on {album}"` when the album is known.
pub open spec fn summary_of(m: MediaInfoView) -> Seq<char> {
    if m.album.len() == 0 {
        m.artist + " - "@ + m.title
    } else {
        m.artist + " - "@ + m.title + " on "@ + m.album
    }
}

impl MediaInfo {
    /// Renders the track as a single line for diagnostics.
    pub fn summary(&self) -> (r: String)
        ensures
            r@ == summary_of(self@),
    {
        let mut out = self.artist.clone();
        out.append(" - ");
        out.append(self.title.as_str());
        if !self.album.as_str().is_empty() {
            out.append(" on ");
            out.append(self.album.as_str());
        }
        out
    }
}

} // verus!
