//! Selection of an offered encoding for a track, together with the byte-rate
//! estimate the fetch layer uses to size its read-ahead buffering.

use vstd::prelude::*;

verus! {

/// Identifier of one container + bitrate combination the service can offer.
#[allow(non_camel_case_types)]
#[derive(Clone, Copy, Debug, PartialEq, Eq, Structural)]
pub enum FileFormat {
    OGG_VORBIS_96,
    OGG_VORBIS_160,
    OGG_VORBIS_320,
    MP3_256,
    MP3_320,
    MP3_160,
    MP3_96,
    MP3_160_ENC,
    MP4_128_DUAL,
    OTHER3,
    AAC_160,
    AAC_320,
    MP4_128,
    OTHER5,
}

/// Opaque content identifier of one encoded copy of a track.
#[derive(Clone, Copy, Debug, PartialEq, Eq)]
pub struct FileId(pub [u8; 20]);

/// The fixed byte-rate estimate, in bytes per second, for an encoding.
/// The table is a pure function of the encoding identifier alone, and is
/// total: identifiers outside the tiers the player prefers still resolve
/// to a conservative high estimate rather than failing.
pub open spec fn spec_data_rate(format: FileFormat) -> usize {
    match format {
        FileFormat::OGG_VORBIS_96 => 12288,
        FileFormat::OGG_VORBIS_160 => 20480,
        FileFormat::OGG_VORBIS_320 => 40960,
        FileFormat::MP3_256 => 32768,
        FileFormat::MP3_320 => 40960,
        FileFormat::MP3_160 => 20480,
        FileFormat::MP3_96 => 12288,
        FileFormat::MP3_160_ENC => 20480,
        FileFormat::MP4_128_DUAL => 16384,
        FileFormat::OTHER3 => 40960,
        FileFormat::AAC_160 => 20480,
        FileFormat::AAC_320 => 40960,
        FileFormat::MP4_128 => 16384,
        FileFormat::OTHER5 => 40960,
    }
}

/// The byte-rate estimate for `format`: same encoding, same rate, always.
pub fn data_rate(format: FileFormat) -> (r: usize)
    ensures
        r == spec_data_rate(format),
{
    match format {
        FileFormat::OGG_VORBIS_96 => 12288,
        FileFormat::OGG_VORBIS_160 => 20480,
        FileFormat::OGG_VORBIS_320 => 40960,
        FileFormat::MP3_256 => 32768,
        FileFormat::MP3_320 => 40960,
        FileFormat::MP3_160 => 20480,
        FileFormat::MP3_96 => 12288,
        FileFormat::MP3_160_ENC => 20480,
        FileFormat::MP4_128_DUAL => 16384,
        FileFormat::OTHER3 => 40960,
        FileFormat::AAC_160 => 20480,
        FileFormat::AAC_320 => 40960,
        FileFormat::MP4_128 => 16384,
        FileFormat::OTHER5 => 40960,
    }
}

/// The encodings offered for one track: a finite map from encoding
/// identifier to the content identifier to fetch for it. Supplied
/// externally per track and read-only to the selection logic.
pub struct EncodingCatalog {
    entries: Vec<(FileFormat, FileId)>,
}

/// The content identifier paired with the first entry of `s` whose
/// encoding identifier is `format`, if any.
spec fn entries_first(s: Seq<(FileFormat, FileId)>, format: FileFormat) -> Option<FileId>
    decreases s.len(),
{
    if s.len() == 0 {
        None::<FileId>
    } else if s[0].0 == format {
        Some(s[0].1)
    } else {
        entries_first(s.subrange(1, s.len() as int), format)
    }
}

proof fn lemma_entries_first_skip(s: Seq<(FileFormat, FileId)>, format: FileFormat, i: int)
    requires
        0 <= i <= s.len(),
        forall|j: int| 0 <= j < i ==> (#[trigger] s[j]).0 != format,
    ensures
        entries_first(s, format) == entries_first(s.subrange(i, s.len() as int), format),
    decreases i,
{
    if i == 0 {
        assert(s.subrange(0, s.len() as int) =~= s);
    } else {
        let tail = s.subrange(1, s.len() as int);
        assert(s[0].0 != format);
        assert forall|j: int| 0 <= j < i - 1 implies (#[trigger] tail[j]).0 != format by {
            assert(tail[j] == s[j + 1]);
        }
        lemma_entries_first_skip(tail, format, i - 1);
        assert(tail.subrange(i - 1, tail.len() as int) =~= s.subrange(i, s.len() as int));
    }
}

impl View for EncodingCatalog {
    type V = Map<FileFormat, FileId>;

    closed spec fn view(&self) -> Map<FileFormat, FileId> {
        Map::new(
            |format: FileFormat| entries_first(self.entries@, format) is Some,
            |format: FileFormat| entries_first(self.entries@, format)->0,
        )
    }
}

impl EncodingCatalog {
    /// An empty catalog, offering nothing.
    pub fn new() -> (r: EncodingCatalog)
        ensures
            r@ == Map::<FileFormat, FileId>::empty(),
    {
        let r = EncodingCatalog { entries: Vec::new() };
        proof {
            assert(r@ =~= Map::<FileFormat, FileId>::empty());
        }
        r
    }

    /// Record that `format` is offered as `id`, shadowing any earlier entry
    /// for the same format.
    pub fn insert(&mut self, format: FileFormat, id: FileId)
        ensures
            final(self)@ == old(self)@.insert(format, id),
    {
        self.entries.insert(0, (format, id));
        proof {
            let s0 = old(self).entries@;
            let s1 = self.entries@;
            assert(s1[0] == (format, id));
            assert(s1.subrange(1, s1.len() as int) =~= s0);
            assert forall|g: FileFormat| g != format implies entries_first(s1, g)
                == entries_first(s0, g) by {
                assert(entries_first(s1, g) == entries_first(s1.subrange(1, s1.len() as int), g));
            }
            assert(self@ =~= old(self)@.insert(format, id));
        }
    }

    /// The content identifier offered for `format`, if any.
    pub fn get(&self, format: FileFormat) -> (r: Option<FileId>)
        ensures
            (match r {
                Some(id) => self@.contains_key(format) && id == self@[format],
                None => !self@.contains_key(format),
            }),
    {
        let n = self.entries.len();
        let mut i: usize = 0;
        while i < n
            invariant
                n == self.entries.len(),
                0 <= i <= n,
                forall|j: int| 0 <= j < i ==> (#[trigger] self.entries@[j]).0 != format,
            decreases n - i,
        {
            if self.entries[i].0 == format {
                proof {
                    lemma_entries_first_skip(self.entries@, format, i as int);
                    assert(self.entries@.subrange(i as int, n as int)[0] == self.entries@[i as int]);
                }
                return Some(self.entries[i].1);
            }
            i = i + 1;
        }
        proof {
            lemma_entries_first_skip(self.entries@, format, n as int);
            assert(self.entries@.subrange(n as int, n as int).len() == 0);
        }
        None
    }
}

/// The error returned when a track is offered in none of the preferred
/// encodings; distinguishable so it can surface to the user as such.
#[derive(Clone, Copy, Debug, PartialEq, Eq, Structural)]
pub struct NotAvailable;

/// Holds when no entry of `preferences` is offered in `catalog`.
pub open spec fn none_available(
    catalog: Map<FileFormat, FileId>,
    preferences: Seq<FileFormat>,
) -> bool {
    forall|i: int| 0 <= i < preferences.len() ==> !catalog.contains_key(#[trigger] preferences[i])
}

/// Holds when `i` indexes the first entry of `preferences` that is offered
/// in `catalog`.
pub open spec fn first_available(
    catalog: Map<FileFormat, FileId>,
    preferences: Seq<FileFormat>,
    i: int,
) -> bool {
    &&& 0 <= i < preferences.len()
    &&& catalog.contains_key(preferences[i])
    &&& forall|j: int| 0 <= j < i ==> !catalog.contains_key(#[trigger] preferences[j])
}

/// Pick the first entry of `preferences` that `catalog` offers — never a
/// later one, whatever its rate — and pair its content identifier with its
/// byte-rate estimate. Fails exactly when no preferred encoding is offered;
/// in particular an empty catalog always fails.
pub fn select(catalog: &EncodingCatalog, preferences: &Vec<FileFormat>) -> (r: Result<
    (FileId, usize),
    NotAvailable,
>)
    ensures
        (match r {
            Ok(sel) => exists|i: int|
                #[trigger] first_available(catalog@, preferences@, i) && sel.0 == catalog@[
                    preferences@[i]
                ] && sel.1 == spec_data_rate(preferences@[i]),
            Err(_) => none_available(catalog@, preferences@),
        }),
        r is Ok <==> !none_available(catalog@, preferences@),
        catalog@ == Map::<FileFormat, FileId>::empty() ==> r is Err,
{
    let n = preferences.len();
    let mut i: usize = 0;
    while i < n
        invariant
            n == preferences.len(),
            0 <= i <= n,
            forall|j: int| 0 <= j < i ==> !catalog@.contains_key(#[trigger] preferences@[j]),
        decreases n - i,
    {
        let format = preferences[i];
        match catalog.get(format) {
            Some(id) => {
                let rate = data_rate(format);
                proof {
                    assert(first_available(catalog@, preferences@, i as int));
                }
                return Ok((id, rate));
            },
            None => {},
        }
        i = i + 1;
    }
    Err(NotAvailable)
}

/// The preference list the player is built with: the mid, low and high
/// Vorbis tiers, most preferred first. Non-empty and free of duplicates.
pub open spec fn supported_formats() -> Seq<FileFormat> {
    seq![FileFormat::OGG_VORBIS_160, FileFormat::OGG_VORBIS_96, FileFormat::OGG_VORBIS_320]
}

/// Build the player's fixed preference list.
pub fn supported_file_formats() -> (r: Vec<FileFormat>)
    ensures
        r@ == supported_formats(),
{
    let mut v: Vec<FileFormat> = Vec::new();
    v.push(FileFormat::OGG_VORBIS_160);
    v.push(FileFormat::OGG_VORBIS_96);
    v.push(FileFormat::OGG_VORBIS_320);
    proof {
        assert(v@ =~= supported_formats());
    }
    v
}

/// Choose the content identifier to fetch for a track, trying the player's
/// preferred formats in order, together with the byte-rate estimate handed
/// to the fetch layer. Fails exactly when the track is offered in none of
/// the preferred formats.
pub fn get_file_id_and_data_rate(catalog: &EncodingCatalog) -> (r: Result<
    (FileId, usize),
    NotAvailable,
>)
    ensures
        (match r {
            Ok(sel) => exists|i: int|
                #[trigger] first_available(catalog@, supported_formats(), i) && sel.0 == catalog@[
                    supported_formats()[i]
                ] && sel.1 == spec_data_rate(supported_formats()[i]),
            Err(_) => none_available(catalog@, supported_formats()),
        }),
        r is Ok <==> !none_available(catalog@, supported_formats()),
{
    let preferences = supported_file_formats();
    select(catalog, &preferences)
}

} // verus!

