use vstd::prelude::*;

use crate::text::same_text;

verus! {

/// Output container formats.
#[derive(Clone, Copy, Debug, PartialEq, Eq, Structural)]
pub enum ContainerFormat {
    Best,
    Matroska,
    Mpeg,
    WebM,
    GifContainer,
}

/// The container chosen for the output: the source's own, or a given format.
#[derive(Clone, Copy, Debug, PartialEq, Eq, Structural)]
pub enum ContainerSelection {
    Same,
    Format(ContainerFormat),
}

/// Video codecs that an output can be encoded with.
#[derive(Clone, Copy, Debug, PartialEq, Eq, Structural)]
pub enum VideoEncoding {
    Av1,
    Vp8,
    Vp9,
    H264,
    H265,
    Gif,
}

/// Audio codecs that an output can be encoded with.
#[derive(Clone, Copy, Debug, PartialEq, Eq, Structural)]
pub enum AudioEncoding {
    Aac,
    Ac3,
    Opus,
    Vorbis,
    Flac,
}

/// Everything that decides the encoding of an output file.
#[derive(Clone, Copy, Debug)]
pub struct OutputFormat {
    pub container_selection: ContainerSelection,
    pub video_encoding: Option<VideoEncoding>,
    pub audio_encoding: Option<AudioEncoding>,
}

/// The elements of `candidates`, in order, that `available` holds.
pub open spec fn only_available(
    candidates: Seq<VideoEncoding>,
    available: Seq<VideoEncoding>,
) -> Seq<VideoEncoding>
    decreases candidates.len(),
{
    if candidates.len() == 0 {
        Seq::empty()
    } else {
        let rest = only_available(candidates.drop_last(), available);
        if available.contains(candidates.last()) {
            rest.push(candidates.last())
        } else {
            rest
        }
    }
}

/// Whether `available` holds `e`.
fn holds_encoding(available: &[VideoEncoding], e: VideoEncoding) -> (b: bool)
    ensures
        b == available@.contains(e),
{
    let mut i: usize = 0;
    while i < available.len()
        invariant
            i <= available@.len(),
            forall|j: int| 0 <= j < i ==> available@[j] != e,
        decreases available.len() - i,
    {
        if available[i] == e {
            return true;
        }
        i += 1;
    }
    false
}

/// The elements of `candidates`, in order, that `available` holds.
fn keep_available(candidates: Vec<VideoEncoding>, available: &[VideoEncoding]) -> (r: Vec<
    VideoEncoding,
>)
    ensures
        r@ == only_available(candidates@, available@),
{
    let mut r: Vec<VideoEncoding> = Vec::new();
    let mut i: usize = 0;
    while i < candidates.len()
        invariant
            i <= candidates@.len(),
            r@ == only_available(candidates@.take(i as int), available@),
        decreases candidates.len() - i,
    {
        assert(candidates@.take(i + 1).drop_last() =~= candidates@.take(i as int));
        if holds_encoding(available, candidates[i]) {
            r.push(candidates[i]);
        }
        i += 1;
    }
    assert(candidates@.take(candidates@.len() as int) =~= candidates@);
    r
}

impl ContainerFormat {
    /// The video codecs that this container can carry, in order of preference.
    pub open spec fn compatible_video(self) -> Seq<VideoEncoding> {
        match self {
            ContainerFormat::Best => seq![VideoEncoding::Av1],
            ContainerFormat::Matroska | ContainerFormat::Mpeg => seq![
                VideoEncoding::Av1,
                VideoEncoding::Vp9,
                VideoEncoding::Vp8,
                VideoEncoding::H264,
                VideoEncoding::H265,
            ],
            ContainerFormat::WebM => seq![VideoEncoding::Av1, VideoEncoding::Vp8, VideoEncoding::Vp9],
            ContainerFormat::GifContainer => seq![VideoEncoding::Gif],
        }
    }

    /// The audio codecs that this container can carry, in order of preference.
    pub open spec fn compatible_audio(self) -> Seq<AudioEncoding> {
        match self {
            ContainerFormat::Best => seq![AudioEncoding::Opus],
            ContainerFormat::Matroska => seq![
                AudioEncoding::Vorbis,
                AudioEncoding::Opus,
                AudioEncoding::Aac,
                AudioEncoding::Ac3,
                AudioEncoding::Flac,
            ],
            ContainerFormat::Mpeg => seq![
                AudioEncoding::Opus,
                AudioEncoding::Aac,
                AudioEncoding::Ac3,
                AudioEncoding::Flac,
            ],
            ContainerFormat::WebM => seq![AudioEncoding::Vorbis, AudioEncoding::Opus],
            ContainerFormat::GifContainer => seq![],
        }
    }

    /// The video codecs this container can carry for which `available` (the
    /// codecs that have an encoder installed) has an entry, in order of preference.
    pub fn viable_video_encodings(self, available: &[VideoEncoding]) -> (r: Vec<VideoEncoding>)
        ensures
            r@ == only_available(self.compatible_video(), available@),
    {
        let candidates = match self {
            ContainerFormat::Best => vec![VideoEncoding::Av1],
            ContainerFormat::Matroska | ContainerFormat::Mpeg => vec![
                VideoEncoding::Av1,
                VideoEncoding::Vp9,
                VideoEncoding::Vp8,
                VideoEncoding::H264,
                VideoEncoding::H265,
            ],
            ContainerFormat::WebM => vec![VideoEncoding::Av1, VideoEncoding::Vp8, VideoEncoding::Vp9],
            ContainerFormat::GifContainer => vec![VideoEncoding::Gif],
        };
        assert(candidates@ =~= self.compatible_video());
        keep_available(candidates, available)
    }

    /// The audio codecs this container can carry, in order of preference.
    pub fn viable_audio_encodings(self) -> (r: Vec<AudioEncoding>)
        ensures
            r@ == self.compatible_audio(),
    {
        let r = match self {
            ContainerFormat::Best => vec![AudioEncoding::Opus],
            ContainerFormat::Matroska => vec![
                AudioEncoding::Vorbis,
                AudioEncoding::Opus,
                AudioEncoding::Aac,
                AudioEncoding::Ac3,
                AudioEncoding::Flac,
            ],
            ContainerFormat::Mpeg => vec![
                AudioEncoding::Opus,
                AudioEncoding::Aac,
                AudioEncoding::Ac3,
                AudioEncoding::Flac,
            ],
            ContainerFormat::WebM => vec![AudioEncoding::Vorbis, AudioEncoding::Opus],
            ContainerFormat::GifContainer => vec![],
        };
        assert(r@ =~= self.compatible_audio());
        r
    }

    pub open spec fn spec_format(self) -> Seq<char> {
        match self {
            ContainerFormat::Matroska => "video/x-matroska"@,
            ContainerFormat::Mpeg => "video/quicktime"@,
            ContainerFormat::Best | ContainerFormat::WebM => "video/webm"@,
            ContainerFormat::GifContainer => "image/gif"@,
        }
    }

    /// The media type of the container.
    pub fn format(self) -> (f: &'static str)
        ensures
            f@ == self.spec_format(),
    {
        match self {
            ContainerFormat::Matroska => "video/x-matroska",
            ContainerFormat::Mpeg => "video/quicktime",
            ContainerFormat::Best | ContainerFormat::WebM => "video/webm",
            ContainerFormat::GifContainer => "image/gif",
        }
    }

    /// Whether the container's caps need `variant=iso`: bare `video/quicktime`
    /// would let the encoder pick a QuickTime muxer for an `.mp4` file.
    pub fn needs_iso_variant(self) -> (b: bool)
        ensures
            b == (self == ContainerFormat::Mpeg),
    {
        match self {
            ContainerFormat::Mpeg => true,
            _ => false,
        }
    }

    pub open spec fn spec_extension(self) -> Seq<char> {
        match self {
            ContainerFormat::Matroska => "mkv"@,
            ContainerFormat::Mpeg => "mp4"@,
            ContainerFormat::Best | ContainerFormat::WebM => "webm"@,
            ContainerFormat::GifContainer => "gif"@,
        }
    }

    /// The file name extension for the container.
    pub fn extension(self) -> (e: &'static str)
        ensures
            e@ == self.spec_extension(),
    {
        match self {
            ContainerFormat::Matroska => "mkv",
            ContainerFormat::Mpeg => "mp4",
            ContainerFormat::Best | ContainerFormat::WebM => "webm",
            ContainerFormat::GifContainer => "gif",
        }
    }

    /// The name shown for the container, as the message to look up in the
    /// translation catalog; only `Best`'s name is marked for translation.
    pub fn display_msgid(self) -> (s: &'static str)
        ensures
            s@ == self.spec_display_name(),
    {
        match self {
            ContainerFormat::Best => "Recommended (WEBM, AV1, Opus)",
            ContainerFormat::Matroska => "MKV",
            ContainerFormat::Mpeg => "MP4",
            ContainerFormat::WebM => "WEBM",
            ContainerFormat::GifContainer => "GIF",
        }
    }

    /// The displayed name of each container, before translation.
    pub open spec fn spec_display_name(self) -> Seq<char> {
        match self {
            ContainerFormat::Best => "Recommended (WEBM, AV1, Opus)"@,
            ContainerFormat::Matroska => "MKV"@,
            ContainerFormat::Mpeg => "MP4"@,
            ContainerFormat::WebM => "WEBM"@,
            ContainerFormat::GifContainer => "GIF"@,
        }
    }

    pub open spec fn spec_settings_key(self) -> Seq<char> {
        match self {
            ContainerFormat::Best => "best"@,
            ContainerFormat::Matroska => "matroska"@,
            ContainerFormat::Mpeg => "mpeg"@,
            ContainerFormat::WebM => "webm"@,
            ContainerFormat::GifContainer => "gif"@,
        }
    }

    /// Stable identifier used to persist the selection. Unlike list indices,
    /// this survives codec availability and display-ordering changes.
    pub fn settings_key(self) -> (k: &'static str)
        ensures
            k@ == self.spec_settings_key(),
    {
        match self {
            ContainerFormat::Best => "best",
            ContainerFormat::Matroska => "matroska",
            ContainerFormat::Mpeg => "mpeg",
            ContainerFormat::WebM => "webm",
            ContainerFormat::GifContainer => "gif",
        }
    }

    /// The container whose settings key is `key`, if any.
    pub fn from_settings_key(key: &str) -> (r: Option<ContainerFormat>)
        ensures
            r == Self::from_key_spec(key@),
    {
        let all = [
            ContainerFormat::Best,
            ContainerFormat::Matroska,
            ContainerFormat::Mpeg,
            ContainerFormat::WebM,
            ContainerFormat::GifContainer,
        ];
        let mut i: usize = 0;
        while i < 5
            invariant
                i <= 5,
                all@ == seq![
                    ContainerFormat::Best,
                    ContainerFormat::Matroska,
                    ContainerFormat::Mpeg,
                    ContainerFormat::WebM,
                    ContainerFormat::GifContainer,
                ],
                forall|j: int| 0 <= j < i ==> all@[j].spec_settings_key() != key@,
            decreases 5 - i,
        {
            if same_text(all[i].settings_key(), key) {
                let ghost c = choose|e: Self| e.spec_settings_key() == key@;
                assert(c.spec_settings_key() == all@[i as int].spec_settings_key());
                proof {
                    Self::lemma_settings_key_injective();
                }
                return Some(all[i]);
            }
            i += 1;
        }
        assert forall|c: ContainerFormat| c.spec_settings_key() != key@ by {
            match c {
                ContainerFormat::Best => assert(all@[0] == c),
                ContainerFormat::Matroska => assert(all@[1] == c),
                ContainerFormat::Mpeg => assert(all@[2] == c),
                ContainerFormat::WebM => assert(all@[3] == c),
                ContainerFormat::GifContainer => assert(all@[4] == c),
            }
        }
        None
    }
}


/// The selections that have at least one viable video codec when `available`
/// lists the codecs with an installed encoder, in display order: the recommended
/// format first, then keeping the source's container, then the other formats.
pub open spec fn all_selections(available: Seq<VideoEncoding>) -> Seq<ContainerSelection> {
    shown_formats(seq![ContainerFormat::Best], available) + seq![ContainerSelection::Same]
        + shown_formats(
        seq![
            ContainerFormat::Matroska,
            ContainerFormat::Mpeg,
            ContainerFormat::WebM,
            ContainerFormat::GifContainer,
        ],
        available,
    )
}

impl ContainerSelection {
    /// Position group in the displayed list: lower comes first.
    pub open spec fn spec_display_priority(self) -> u8 {
        match self {
            ContainerSelection::Format(ContainerFormat::Best) => 0,
            ContainerSelection::Same => 1,
            ContainerSelection::Format(_) => 2,
        }
    }

    pub fn display_priority(self) -> (p: u8)
        ensures
            p == self.spec_display_priority(),
    {
        match self {
            ContainerSelection::Format(ContainerFormat::Best) => 0,
            ContainerSelection::Same => 1,
            ContainerSelection::Format(_) => 2,
        }
    }

    /// Every selection offered to the user, given the codecs with an installed
    /// encoder: the formats that can carry one of them, and keeping the source's
    /// container, ordered by display priority with ties kept in declaration order.
    pub fn all(available: &[VideoEncoding]) -> (r: Vec<ContainerSelection>)
        ensures
            r@ == all_selections(available@),
    {
        let mut r: Vec<ContainerSelection> = Vec::new();
        if ContainerFormat::Best.viable_video_encodings(available).len() > 0 {
            r.push(ContainerSelection::Format(ContainerFormat::Best));
        }
        r.push(ContainerSelection::Same);
        let rest = [
            ContainerFormat::Matroska,
            ContainerFormat::Mpeg,
            ContainerFormat::WebM,
            ContainerFormat::GifContainer,
        ];
        let ghost head = r@;
        let mut i: usize = 0;
        while i < 4
            invariant
                i <= 4,
                rest@ == seq![
                    ContainerFormat::Matroska,
                    ContainerFormat::Mpeg,
                    ContainerFormat::WebM,
                    ContainerFormat::GifContainer,
                ],
                r@ == head + shown_formats(rest@.take(i as int), available@),
            decreases 4 - i,
        {
            assert(rest@.take(i + 1).drop_last() =~= rest@.take(i as int));
            if rest[i].viable_video_encodings(available).len() > 0 {
                r.push(ContainerSelection::Format(rest[i]));
            }
            assert(r@ =~= head + shown_formats(rest@.take(i + 1), available@));
            i += 1;
        }
        proof {
            reveal_with_fuel(shown_formats, 5);
            assert(rest@.take(4) =~= rest@);
        }
        assert(r@ =~= all_selections(available@));
        r
    }
}

/// The formats of `formats`, in order, that can carry a codec of `available`.
pub open spec fn shown_formats(formats: Seq<ContainerFormat>, available: Seq<VideoEncoding>) -> Seq<
    ContainerSelection,
>
    decreases formats.len(),
{
    if formats.len() == 0 {
        Seq::empty()
    } else {
        let rest = shown_formats(formats.drop_last(), available);
        if only_available(formats.last().compatible_video(), available).len() > 0 {
            rest.push(ContainerSelection::Format(formats.last()))
        } else {
            rest
        }
    }
}

impl ContainerSelection {
    /// The displayed name of each selection, before translation.
    pub open spec fn spec_display_name(self) -> Seq<char> {
        match self {
            ContainerSelection::Same => "Keep as-is"@,
            ContainerSelection::Format(f) => f.spec_display_name(),
        }
    }

    /// The name shown for the selection, as the message to look up in the
    /// translation catalog.
    pub fn display_msgid(self) -> (s: &'static str)
        ensures
            s@ == self.spec_display_name(),
    {
        match self {
            ContainerSelection::Same => "Keep as-is",
            ContainerSelection::Format(f) => f.display_msgid(),
        }
    }

    pub open spec fn spec_settings_key(self) -> Seq<char> {
        match self {
            ContainerSelection::Same => "same"@,
            ContainerSelection::Format(f) => f.spec_settings_key(),
        }
    }

    /// The selection whose settings key is `key`, if any.
    pub open spec fn from_key_spec(key: Seq<char>) -> Option<ContainerSelection> {
        if key == "same"@ {
            Some(ContainerSelection::Same)
        } else {
            match ContainerFormat::from_key_spec(key) {
                Some(f) => Some(ContainerSelection::Format(f)),
                None => None,
            }
        }
    }

    /// Stable identifier used to persist the selection across sessions.
    pub fn settings_key(self) -> (k: &'static str)
        ensures
            k@ == self.spec_settings_key(),
    {
        match self {
            ContainerSelection::Same => "same",
            ContainerSelection::Format(f) => f.settings_key(),
        }
    }

    /// The selection whose settings key is `key`, if any.
    pub fn from_settings_key(key: &str) -> (r: Option<ContainerSelection>)
        ensures
            r == Self::from_key_spec(key@),
    {
        if same_text(key, "same") {
            Some(ContainerSelection::Same)
        } else {
            match ContainerFormat::from_settings_key(key) {
                Some(f) => Some(ContainerSelection::Format(f)),
                None => None,
            }
        }
    }
}

impl ContainerFormat {
    /// The container whose settings key is `key`, if any.
    pub open spec fn from_key_spec(key: Seq<char>) -> Option<ContainerFormat> {
        if exists|c: ContainerFormat| c.spec_settings_key() == key {
            Some(choose|c: ContainerFormat| c.spec_settings_key() == key)
        } else {
            None
        }
    }

    /// No two containers share a settings key.
    pub proof fn lemma_settings_key_injective()
        ensures
            forall|a: ContainerFormat, b: ContainerFormat|
                a.spec_settings_key() == b.spec_settings_key() ==> a == b,
    {
        reveal_strlit("best");
        reveal_strlit("matroska");
        reveal_strlit("mpeg");
        reveal_strlit("webm");
        reveal_strlit("gif");
        assert forall|a: ContainerFormat, b: ContainerFormat|
            a.spec_settings_key() == b.spec_settings_key() implies a == b by {
            if a != b {
                let ka = a.spec_settings_key();
                let kb = b.spec_settings_key();
                if ka.len() == kb.len() {
                    assert(ka[0] != kb[0] || ka[1] != kb[1]);
                }
            }
        }
    }
}


impl VideoEncoding {
    pub open spec fn spec_format(self) -> Seq<char> {
        match self {
            VideoEncoding::Av1 => "video/x-av1"@,
            VideoEncoding::Vp8 => "video/x-vp8"@,
            VideoEncoding::Vp9 => "video/x-vp9"@,
            VideoEncoding::H264 => "video/x-h264"@,
            VideoEncoding::H265 => "video/x-h265"@,
            VideoEncoding::Gif => "image/gif"@,
        }
    }

    /// The media type of the encoded stream.
    pub fn format(&self) -> (f: &'static str)
        ensures
            f@ == self.spec_format(),
    {
        match self {
            VideoEncoding::Av1 => "video/x-av1",
            VideoEncoding::Vp8 => "video/x-vp8",
            VideoEncoding::Vp9 => "video/x-vp9",
            VideoEncoding::H264 => "video/x-h264",
            VideoEncoding::H265 => "video/x-h265",
            VideoEncoding::Gif => "image/gif",
        }
    }

    pub open spec fn spec_display_name(self) -> Seq<char> {
        match self {
            VideoEncoding::Av1 => "AV1"@,
            VideoEncoding::Vp8 => "VP8"@,
            VideoEncoding::Vp9 => "VP9"@,
            VideoEncoding::H264 => "H264"@,
            VideoEncoding::H265 => "H265"@,
            VideoEncoding::Gif => "GIF"@,
        }
    }

    /// The name shown for the codec.
    pub fn for_display(&self) -> (s: &'static str)
        ensures
            s@ == self.spec_display_name(),
    {
        match self {
            VideoEncoding::Av1 => "AV1",
            VideoEncoding::Vp8 => "VP8",
            VideoEncoding::Vp9 => "VP9",
            VideoEncoding::H264 => "H264",
            VideoEncoding::H265 => "H265",
            VideoEncoding::Gif => "GIF",
        }
    }

    pub open spec fn spec_settings_key(self) -> Seq<char> {
        match self {
            VideoEncoding::Av1 => "av1"@,
            VideoEncoding::Vp8 => "vp8"@,
            VideoEncoding::Vp9 => "vp9"@,
            VideoEncoding::H264 => "h264"@,
            VideoEncoding::H265 => "h265"@,
            VideoEncoding::Gif => "gif"@,
        }
    }

    /// Stable identifier used to persist the codec choice.
    pub fn settings_key(self) -> (k: &'static str)
        ensures
            k@ == self.spec_settings_key(),
    {
        match self {
            VideoEncoding::Av1 => "av1",
            VideoEncoding::Vp8 => "vp8",
            VideoEncoding::Vp9 => "vp9",
            VideoEncoding::H264 => "h264",
            VideoEncoding::H265 => "h265",
            VideoEncoding::Gif => "gif",
        }
    }

    /// The codec whose settings key is `key`, if any.
    pub open spec fn from_key_spec(key: Seq<char>) -> Option<VideoEncoding> {
        if exists|e: VideoEncoding| e.spec_settings_key() == key {
            Some(choose|e: VideoEncoding| e.spec_settings_key() == key)
        } else {
            None
        }
    }

    /// No two codecs share a settings key.
    pub proof fn lemma_settings_key_injective()
        ensures
            forall|a: VideoEncoding, b: VideoEncoding|
                a.spec_settings_key() == b.spec_settings_key() ==> a == b,
    {
        reveal_strlit("av1");
        reveal_strlit("vp8");
        reveal_strlit("vp9");
        reveal_strlit("h264");
        reveal_strlit("h265");
        reveal_strlit("gif");
        assert forall|a: VideoEncoding, b: VideoEncoding|
            a.spec_settings_key() == b.spec_settings_key() implies a == b by {
            if a != b {
                let ka = a.spec_settings_key();
                let kb = b.spec_settings_key();
                if ka.len() == kb.len() {
                    assert(ka[0] != kb[0] || ka[1] != kb[1] || ka[2] != kb[2] || ka[3] != kb[3]);
                }
            }
        }
    }

    /// The codec whose settings key is `key`, if any.
    pub fn from_settings_key(key: &str) -> (r: Option<VideoEncoding>)
        ensures
            r == Self::from_key_spec(key@),
    {
        proof {
            Self::lemma_settings_key_injective();
        }
        let all = [VideoEncoding::Av1, VideoEncoding::Vp8, VideoEncoding::Vp9, VideoEncoding::H264, VideoEncoding::H265, VideoEncoding::Gif];
        let mut i: usize = 0;
        while i < 6
            invariant
                i <= 6,
                all@ == seq![
                    VideoEncoding::Av1,
                    VideoEncoding::Vp8,
                    VideoEncoding::Vp9,
                    VideoEncoding::H264,
                    VideoEncoding::H265,
                    VideoEncoding::Gif
                ],
                forall|j: int| 0 <= j < i ==> all@[j].spec_settings_key() != key@,
            decreases 6 - i,
        {
            if same_text(all[i].settings_key(), key) {
                assert(all@[i as int].spec_settings_key() == key@);
                let ghost c = choose|e: Self| e.spec_settings_key() == key@;
                assert(c.spec_settings_key() == all@[i as int].spec_settings_key());
                proof {
                    Self::lemma_settings_key_injective();
                }
                return Some(all[i]);
            }
            i += 1;
        }
        assert forall|e: VideoEncoding| e.spec_settings_key() != key@ by {
            match e {
                VideoEncoding::Av1 => assert(all@[0] == e),
                VideoEncoding::Vp8 => assert(all@[1] == e),
                VideoEncoding::Vp9 => assert(all@[2] == e),
                VideoEncoding::H264 => assert(all@[3] == e),
                VideoEncoding::H265 => assert(all@[4] == e),
                VideoEncoding::Gif => assert(all@[5] == e),
            }
        }
        None
    }

    pub open spec fn spec_max_framerate(self) -> u32 {
        match self {
            VideoEncoding::Vp8 => 60,
            VideoEncoding::Av1 | VideoEncoding::Vp9 => 240,
            VideoEncoding::H264 | VideoEncoding::H265 => 300,
            VideoEncoding::Gif => 50,
        }
    }

    /// The highest output frame rate offered for the codec, in frames per second.
    pub fn max_framerate(self) -> (fps: u32)
        ensures
            fps == self.spec_max_framerate(),
    {
        match self {
            VideoEncoding::Vp8 => 60,
            VideoEncoding::Av1 | VideoEncoding::Vp9 => 240,
            VideoEncoding::H264 | VideoEncoding::H265 => 300,
            VideoEncoding::Gif => 50,
        }
    }

    /// Every video codec, in declaration order.
    pub fn all_encodings() -> (r: Vec<VideoEncoding>)
        ensures
            r@ == seq![
                VideoEncoding::Av1,
                VideoEncoding::Vp8,
                VideoEncoding::Vp9,
                VideoEncoding::H264,
                VideoEncoding::H265,
                VideoEncoding::Gif,
            ],
            forall|e: VideoEncoding| r@.contains(e),
    {
        let r = vec![
            VideoEncoding::Av1,
            VideoEncoding::Vp8,
            VideoEncoding::Vp9,
            VideoEncoding::H264,
            VideoEncoding::H265,
            VideoEncoding::Gif,
        ];
        assert forall|e: VideoEncoding| r@.contains(e) by {
            match e {
                VideoEncoding::Av1 => assert(r@[0] == e),
                VideoEncoding::Vp8 => assert(r@[1] == e),
                VideoEncoding::Vp9 => assert(r@[2] == e),
                VideoEncoding::H264 => assert(r@[3] == e),
                VideoEncoding::H265 => assert(r@[4] == e),
                VideoEncoding::Gif => assert(r@[5] == e),
            }
        }
        r
    }
}

impl AudioEncoding {
    /// Every audio codec, in declaration order.
    pub fn all_encodings() -> (r: Vec<AudioEncoding>)
        ensures
            r@ == seq![
                AudioEncoding::Aac,
                AudioEncoding::Ac3,
                AudioEncoding::Opus,
                AudioEncoding::Vorbis,
                AudioEncoding::Flac,
            ],
            forall|e: AudioEncoding| r@.contains(e),
    {
        let r = vec![
            AudioEncoding::Aac,
            AudioEncoding::Ac3,
            AudioEncoding::Opus,
            AudioEncoding::Vorbis,
            AudioEncoding::Flac,
        ];
        assert forall|e: AudioEncoding| r@.contains(e) by {
            match e {
                AudioEncoding::Aac => assert(r@[0] == e),
                AudioEncoding::Ac3 => assert(r@[1] == e),
                AudioEncoding::Opus => assert(r@[2] == e),
                AudioEncoding::Vorbis => assert(r@[3] == e),
                AudioEncoding::Flac => assert(r@[4] == e),
            }
        }
        r
    }

    pub open spec fn spec_format(self) -> Seq<char> {
        match self {
            AudioEncoding::Aac => "audio/mpeg"@,
            AudioEncoding::Ac3 => "audio/x-ac3"@,
            AudioEncoding::Opus => "audio/x-opus"@,
            AudioEncoding::Vorbis => "audio/x-vorbis"@,
            AudioEncoding::Flac => "audio/x-flac"@,
        }
    }

    /// The media type of the encoded stream.
    pub fn format(&self) -> (f: &'static str)
        ensures
            f@ == self.spec_format(),
    {
        match self {
            AudioEncoding::Aac => "audio/mpeg",
            AudioEncoding::Ac3 => "audio/x-ac3",
            AudioEncoding::Opus => "audio/x-opus",
            AudioEncoding::Vorbis => "audio/x-vorbis",
            AudioEncoding::Flac => "audio/x-flac",
        }
    }

    pub open spec fn spec_display_name(self) -> Seq<char> {
        match self {
            AudioEncoding::Aac => "AAC"@,
            AudioEncoding::Ac3 => "AC3"@,
            AudioEncoding::Opus => "Opus"@,
            AudioEncoding::Vorbis => "Vorbis"@,
            AudioEncoding::Flac => "FLAC"@,
        }
    }

    /// The name shown for the codec.
    pub fn for_display(&self) -> (s: &'static str)
        ensures
            s@ == self.spec_display_name(),
    {
        match self {
            AudioEncoding::Aac => "AAC",
            AudioEncoding::Ac3 => "AC3",
            AudioEncoding::Opus => "Opus",
            AudioEncoding::Vorbis => "Vorbis",
            AudioEncoding::Flac => "FLAC",
        }
    }

    pub open spec fn spec_settings_key(self) -> Seq<char> {
        match self {
            AudioEncoding::Aac => "aac"@,
            AudioEncoding::Ac3 => "ac3"@,
            AudioEncoding::Opus => "opus"@,
            AudioEncoding::Vorbis => "vorbis"@,
            AudioEncoding::Flac => "flac"@,
        }
    }

    /// Stable identifier used to persist the codec choice.
    pub fn settings_key(self) -> (k: &'static str)
        ensures
            k@ == self.spec_settings_key(),
    {
        match self {
            AudioEncoding::Aac => "aac",
            AudioEncoding::Ac3 => "ac3",
            AudioEncoding::Opus => "opus",
            AudioEncoding::Vorbis => "vorbis",
            AudioEncoding::Flac => "flac",
        }
    }

    /// The codec whose settings key is `key`, if any.
    pub open spec fn from_key_spec(key: Seq<char>) -> Option<AudioEncoding> {
        if exists|e: AudioEncoding| e.spec_settings_key() == key {
            Some(choose|e: AudioEncoding| e.spec_settings_key() == key)
        } else {
            None
        }
    }

    /// No two codecs share a settings key.
    pub proof fn lemma_settings_key_injective()
        ensures
            forall|a: AudioEncoding, b: AudioEncoding|
                a.spec_settings_key() == b.spec_settings_key() ==> a == b,
    {
        reveal_strlit("aac");
        reveal_strlit("ac3");
        reveal_strlit("opus");
        reveal_strlit("vorbis");
        reveal_strlit("flac");
        assert forall|a: AudioEncoding, b: AudioEncoding|
            a.spec_settings_key() == b.spec_settings_key() implies a == b by {
            if a != b {
                let ka = a.spec_settings_key();
                let kb = b.spec_settings_key();
                if ka.len() == kb.len() {
                    assert(ka[0] != kb[0] || ka[1] != kb[1] || ka[2] != kb[2] || ka[3] != kb[3]);
                }
            }
        }
    }

    /// The codec whose settings key is `key`, if any.
    pub fn from_settings_key(key: &str) -> (r: Option<AudioEncoding>)
        ensures
            r == Self::from_key_spec(key@),
    {
        proof {
            Self::lemma_settings_key_injective();
        }
        let all = [AudioEncoding::Aac, AudioEncoding::Ac3, AudioEncoding::Opus, AudioEncoding::Vorbis, AudioEncoding::Flac];
        let mut i: usize = 0;
        while i < 5
            invariant
                i <= 5,
                all@ == seq![
                    AudioEncoding::Aac,
                    AudioEncoding::Ac3,
                    AudioEncoding::Opus,
                    AudioEncoding::Vorbis,
                    AudioEncoding::Flac
                ],
                forall|j: int| 0 <= j < i ==> all@[j].spec_settings_key() != key@,
            decreases 5 - i,
        {
            if same_text(all[i].settings_key(), key) {
                assert(all@[i as int].spec_settings_key() == key@);
                let ghost c = choose|e: Self| e.spec_settings_key() == key@;
                assert(c.spec_settings_key() == all@[i as int].spec_settings_key());
                proof {
                    Self::lemma_settings_key_injective();
                }
                return Some(all[i]);
            }
            i += 1;
        }
        assert forall|e: AudioEncoding| e.spec_settings_key() != key@ by {
            match e {
                AudioEncoding::Aac => assert(all@[0] == e),
                AudioEncoding::Ac3 => assert(all@[1] == e),
                AudioEncoding::Opus => assert(all@[2] == e),
                AudioEncoding::Vorbis => assert(all@[3] == e),
                AudioEncoding::Flac => assert(all@[4] == e),
            }
        }
        None
    }

    /// Whether the codec's caps need `mpegversion=4`: bare `audio/mpeg` also
    /// matches MP3 and MP2 encoders, so the codec would depend on registry order.
    pub fn needs_mpeg_version(self) -> (b: bool)
        ensures
            b == (self == AudioEncoding::Aac),
    {
        match self {
            AudioEncoding::Aac => true,
            _ => false,
        }
    }
}

/// Reading back the settings key stored for a container gives that container.
pub proof fn law_container_key_roundtrip(c: ContainerFormat)
    ensures
        ContainerFormat::from_key_spec(c.spec_settings_key()) == Some(c),
{
    ContainerFormat::lemma_settings_key_injective();
}

/// Reading back the settings key stored for a container selection gives that
/// selection.
pub proof fn law_selection_key_roundtrip(s: ContainerSelection)
    ensures
        ContainerSelection::from_key_spec(s.spec_settings_key()) == Some(s),
{
    ContainerFormat::lemma_settings_key_injective();
    reveal_strlit("same");
    reveal_strlit("best");
    reveal_strlit("matroska");
    reveal_strlit("mpeg");
    reveal_strlit("webm");
    reveal_strlit("gif");
    if let ContainerSelection::Format(f) = s {
        let k = f.spec_settings_key();
        if k.len() == 4 {
            assert(k[0] != "same"@[0]);
        }
        assert(k != "same"@);
    }
}

/// Reading back the settings key stored for a video codec gives that codec.
pub proof fn law_video_key_roundtrip(e: VideoEncoding)
    ensures
        VideoEncoding::from_key_spec(e.spec_settings_key()) == Some(e),
{
    VideoEncoding::lemma_settings_key_injective();
}

/// Reading back the settings key stored for an audio codec gives that codec.
pub proof fn law_audio_key_roundtrip(e: AudioEncoding)
    ensures
        AudioEncoding::from_key_spec(e.spec_settings_key()) == Some(e),
{
    AudioEncoding::lemma_settings_key_injective();
}

/// A viable codec of a container is one it can carry and that has an encoder.
pub proof fn law_viable_codecs_are_compatible_and_available(
    candidates: Seq<VideoEncoding>,
    available: Seq<VideoEncoding>,
)
    ensures
        forall|e: VideoEncoding|
            only_available(candidates, available).contains(e) <==> (candidates.contains(e)
                && available.contains(e)),
    decreases candidates.len(),
{
    if candidates.len() > 0 {
        law_viable_codecs_are_compatible_and_available(candidates.drop_last(), available);
        let rest = only_available(candidates.drop_last(), available);
        assert forall|e: VideoEncoding|
            only_available(candidates, available).contains(e) <==> (candidates.contains(e)
                && available.contains(e)) by {
            assert(candidates =~= candidates.drop_last().push(candidates.last()));
            if available.contains(candidates.last()) {
                assert(rest.push(candidates.last()).contains(e) <==> (rest.contains(e) || e
                    == candidates.last())) by {
                    if rest.push(candidates.last()).contains(e) {
                        let k = choose|k: int|
                            0 <= k < rest.push(candidates.last()).len() && rest.push(
                                candidates.last(),
                            )[k] == e;
                        if k < rest.len() {
                            assert(rest[k] == e);
                        }
                    }
                    if rest.contains(e) {
                        let k = choose|k: int| 0 <= k < rest.len() && rest[k] == e;
                        assert(rest.push(candidates.last())[k] == e);
                    }
                    if e == candidates.last() {
                        assert(rest.push(candidates.last())[rest.len() as int] == e);
                    }
                }
            }
            if candidates.contains(e) {
                let k = choose|k: int| 0 <= k < candidates.len() && candidates[k] == e;
                if k < candidates.len() - 1 {
                    assert(candidates.drop_last()[k] == e);
                }
            }
            if candidates.drop_last().contains(e) {
                let k = choose|k: int|
                    0 <= k < candidates.drop_last().len() && candidates.drop_last()[k] == e;
                assert(candidates[k] == e);
            }
        }
    }
}

/// The offered selections come in display order (recommended format, then
/// keeping the container, then the other formats), keeping the source's container
/// is always offered, and a format is offered exactly when it can carry a codec
/// that has an encoder.
pub proof fn law_offered_selections(available: Seq<VideoEncoding>)
    ensures
        ({
            let r = all_selections(available);
            &&& forall|i: int, j: int|
                0 <= i < j < r.len() ==> r[i].spec_display_priority()
                    <= r[j].spec_display_priority()
            &&& r.contains(ContainerSelection::Same)
            &&& forall|c: ContainerFormat|
                r.contains(ContainerSelection::Format(c)) <==> only_available(
                    c.compatible_video(),
                    available,
                ).len() > 0
            &&& r.no_duplicates()
        }),
{
    reveal_with_fuel(shown_formats, 5);
    let r = all_selections(available);
    let viable = |c: ContainerFormat| only_available(c.compatible_video(), available).len() > 0;
    let first = shown_formats(seq![ContainerFormat::Best], available);
    let others = seq![
        ContainerFormat::Matroska,
        ContainerFormat::Mpeg,
        ContainerFormat::WebM,
        ContainerFormat::GifContainer,
    ];
    assert(seq![ContainerFormat::Best].drop_last() =~= Seq::<ContainerFormat>::empty());
    assert(others.drop_last() =~= seq![
        ContainerFormat::Matroska,
        ContainerFormat::Mpeg,
        ContainerFormat::WebM,
    ]);
    assert(others.drop_last().drop_last() =~= seq![
        ContainerFormat::Matroska,
        ContainerFormat::Mpeg,
    ]);
    assert(others.drop_last().drop_last().drop_last() =~= seq![ContainerFormat::Matroska]);
    assert(others.drop_last().drop_last().drop_last().drop_last() =~= Seq::<
        ContainerFormat,
    >::empty());
    let rest = shown_formats(others, available);
    assert forall|k: int| 0 <= k < rest.len() implies rest[k] is Format && rest[k]->Format_0
        != ContainerFormat::Best && viable(rest[k]->Format_0) by {
    }
    assert forall|k: int, l: int| 0 <= k < l < rest.len() implies rest[k] != rest[l] by {
    }
    assert forall|c: ContainerFormat| c != ContainerFormat::Best implies (rest.contains(
        ContainerSelection::Format(c),
    ) <==> viable(c)) by {
        if viable(c) {
            match c {
                ContainerFormat::Matroska => assert(rest[0] == ContainerSelection::Format(c)),
                ContainerFormat::Mpeg => {
                    let k = if viable(ContainerFormat::Matroska) { 1int } else { 0int };
                    assert(rest[k] == ContainerSelection::Format(c));
                },
                ContainerFormat::WebM => {
                    let k = (if viable(ContainerFormat::Matroska) { 1int } else { 0int }) + (if viable(ContainerFormat::Mpeg) { 1int } else { 0int });
                    assert(rest[k] == ContainerSelection::Format(c));
                },
                ContainerFormat::GifContainer => {
                    assert(rest[rest.len() - 1] == ContainerSelection::Format(c));
                },
                ContainerFormat::Best => {},
            }
        }
    }
    assert(r =~= first + seq![ContainerSelection::Same] + rest);
    let off = r.len() - rest.len();
    if viable(ContainerFormat::Best) {
        assert(first =~= seq![ContainerSelection::Format(ContainerFormat::Best)]);
        assert(r[0] == ContainerSelection::Format(ContainerFormat::Best));
        assert(r[1] == ContainerSelection::Same);
        assert(off == 2);
    } else {
        assert(first =~= Seq::<ContainerSelection>::empty());
        assert(r[0] == ContainerSelection::Same);
        assert(off == 1);
    }
    assert forall|k: int| 0 <= k < rest.len() implies r[k + off] == rest[k] by {}
    assert forall|k: int| 0 <= k < off implies (r[k] == ContainerSelection::Same || (r[k]
        == ContainerSelection::Format(ContainerFormat::Best) && viable(ContainerFormat::Best))) by {
    }
    assert forall|c: ContainerFormat|
        r.contains(ContainerSelection::Format(c)) <==> viable(c) by {
        if r.contains(ContainerSelection::Format(c)) {
            let k = choose|k: int| 0 <= k < r.len() && r[k] == ContainerSelection::Format(c);
            if k >= off {
                assert(rest[k - off] == ContainerSelection::Format(c));
            }
        }
        if viable(c) {
            if c == ContainerFormat::Best {
                assert(r[0] == ContainerSelection::Format(c));
            } else {
                assert(rest.contains(ContainerSelection::Format(c)));
                let k = choose|k: int|
                    0 <= k < rest.len() && rest[k] == ContainerSelection::Format(c);
                assert(rest[k] == ContainerSelection::Format(c));
                assert(r[k + off] == rest[k]);
                assert(r[k + off] == ContainerSelection::Format(c));
            }
        }
    }
    assert(r[off - 1] == ContainerSelection::Same);
    assert forall|i: int, j: int|
        0 <= i < j < r.len() implies r[i].spec_display_priority()
        <= r[j].spec_display_priority() by {
        if j >= off {
            assert(r[j] == rest[j - off]);
        }
    }
    assert forall|i: int, j: int| 0 <= i < r.len() && 0 <= j < r.len() && i != j implies r[i]
        != r[j] by {
        if i >= off && j >= off {
            assert(r[i] == rest[i - off]);
            assert(r[j] == rest[j - off]);
        } else if i >= off {
            assert(r[i] == rest[i - off]);
        } else if j >= off {
            assert(r[j] == rest[j - off]);
        }
    }
}

/// The video codecs each container can carry: MP4 and MKV carry the same five
/// (AV1, VP9, VP8, H.264 and H.265, H.265 included), WebM only the open codecs
/// AV1, VP8 and VP9, the recommended format only AV1 and GIF only GIF. Every
/// container but GIF carries AV1, and no container other than GIF carries GIF.
pub proof fn law_container_video_codecs()
    ensures
        ContainerFormat::Mpeg.compatible_video() == seq![
            VideoEncoding::Av1,
            VideoEncoding::Vp9,
            VideoEncoding::Vp8,
            VideoEncoding::H264,
            VideoEncoding::H265,
        ],
        ContainerFormat::Matroska.compatible_video() == ContainerFormat::Mpeg.compatible_video(),
        ContainerFormat::WebM.compatible_video() == seq![
            VideoEncoding::Av1,
            VideoEncoding::Vp8,
            VideoEncoding::Vp9,
        ],
        ContainerFormat::Best.compatible_video() == seq![VideoEncoding::Av1],
        ContainerFormat::GifContainer.compatible_video() == seq![VideoEncoding::Gif],
        forall|c: ContainerFormat|
            c != ContainerFormat::GifContainer ==> #[trigger] c.compatible_video().contains(
                VideoEncoding::Av1,
            ) && !c.compatible_video().contains(VideoEncoding::Gif),
{
    assert forall|c: ContainerFormat|
        c != ContainerFormat::GifContainer implies #[trigger] c.compatible_video().contains(
            VideoEncoding::Av1,
        ) && !c.compatible_video().contains(VideoEncoding::Gif) by {
        assert(c.compatible_video()[0] == VideoEncoding::Av1);
    }
}

/// With an encoder installed for every video codec, MP4 offers all five codecs it
/// carries, H.265 among them, in order of preference.
pub proof fn law_mp4_offers_every_carried_codec(available: Seq<VideoEncoding>)
    requires
        forall|e: VideoEncoding| available.contains(e),
    ensures
        only_available(ContainerFormat::Mpeg.compatible_video(), available) == seq![
            VideoEncoding::Av1,
            VideoEncoding::Vp9,
            VideoEncoding::Vp8,
            VideoEncoding::H264,
            VideoEncoding::H265,
        ],
{
    reveal_with_fuel(only_available, 6);
    let c = ContainerFormat::Mpeg.compatible_video();
    assert(available.contains(VideoEncoding::Av1));
    assert(available.contains(VideoEncoding::Vp9));
    assert(available.contains(VideoEncoding::Vp8));
    assert(available.contains(VideoEncoding::H264));
    assert(available.contains(VideoEncoding::H265));
    assert(c.drop_last().drop_last().drop_last().drop_last().drop_last() =~= Seq::<VideoEncoding>::empty());
}

/// The audio codecs each container can carry: MKV carries Vorbis and everything
/// MP4 carries (Opus, AAC, AC-3, FLAC), WebM carries Vorbis and Opus, the
/// recommended format Opus, and GIF no audio at all.
pub proof fn law_container_audio_codecs()
    ensures
        ContainerFormat::Mpeg.compatible_audio() == seq![
            AudioEncoding::Opus,
            AudioEncoding::Aac,
            AudioEncoding::Ac3,
            AudioEncoding::Flac,
        ],
        ContainerFormat::Matroska.compatible_audio() == seq![AudioEncoding::Vorbis]
            + ContainerFormat::Mpeg.compatible_audio(),
        ContainerFormat::WebM.compatible_audio() == seq![AudioEncoding::Vorbis, AudioEncoding::Opus],
        ContainerFormat::Best.compatible_audio() == seq![AudioEncoding::Opus],
        ContainerFormat::GifContainer.compatible_audio().len() == 0,
{
    assert(ContainerFormat::Matroska.compatible_audio() =~= seq![AudioEncoding::Vorbis]
        + ContainerFormat::Mpeg.compatible_audio());
}

} // verus!
