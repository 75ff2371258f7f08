//! The catalog: the air traffic control feeds and the music sources that the
//! server offers, looked up by identifier.

use crate::text::option_text;
use vstd::prelude::*;

verus! {

/// A live air traffic control feed.
#[derive(Debug, Clone, PartialEq, Eq)]
pub struct AtcStation {
    pub id: String,
    pub name: String,
    pub airport_code: String,
    pub frequency: String,
    pub description: String,
    pub stream_url: String,
}

/// A station as a plain value.
pub struct Station {
    pub id: Seq<char>,
    pub name: Seq<char>,
    pub airport_code: Seq<char>,
    pub frequency: Seq<char>,
    pub description: Seq<char>,
    pub stream_url: Seq<char>,
}

impl View for AtcStation {
    type V = Station;

    open spec fn view(&self) -> Station {
        Station {
            id: self.id@,
            name: self.name@,
            airport_code: self.airport_code@,
            frequency: self.frequency@,
            description: self.description@,
            stream_url: self.stream_url@,
        }
    }
}

/// A source of music on a video platform.
#[derive(Debug, Clone, PartialEq, Eq)]
pub struct MusicSource {
    pub id: String,
    pub name: String,
    pub source_type: String,
    pub stream_url: String,
    pub thumbnail: Option<String>,
}

/// A source as a plain value.
pub struct Source {
    pub id: Seq<char>,
    pub name: Seq<char>,
    pub source_type: Seq<char>,
    pub stream_url: Seq<char>,
    pub thumbnail: Option<Seq<char>>,
}

impl View for MusicSource {
    type V = Source;

    open spec fn view(&self) -> Source {
        Source {
            id: self.id@,
            name: self.name@,
            source_type: self.source_type@,
            stream_url: self.stream_url@,
            thumbnail: option_text(self.thumbnail),
        }
    }
}

/// The stations as plain values.
pub open spec fn stations_view(stations: Seq<AtcStation>) -> Seq<Station> {
    stations.map_values(|station: AtcStation| station@)
}

/// The sources as plain values.
pub open spec fn sources_view(sources: Seq<MusicSource>) -> Seq<Source> {
    sources.map_values(|source: MusicSource| source@)
}

pub open spec fn station(
    id: Seq<char>,
    name: Seq<char>,
    airport_code: Seq<char>,
    frequency: Seq<char>,
    description: Seq<char>,
) -> Station {
    Station {
        id,
        name,
        airport_code,
        frequency,
        description,
        stream_url: "http://d.liveatc.net/"@ + id,
    }
}

pub open spec fn youtube_source(id: Seq<char>, name: Seq<char>, video: Seq<char>) -> Source {
    Source {
        id,
        name,
        source_type: "youtube"@,
        stream_url: "https://www.youtube.com/watch?v="@ + video,
        thumbnail: Some("https://i.ytimg.com/vi/"@ + video + "/maxresdefault.jpg"@),
    }
}

/// The stations of the catalog.
pub open spec fn catalog_stations() -> Seq<Station> {
    seq![
        station("kjfk_twr"@, "JFK Tower"@, "KJFK"@, "123.900"@, "New York JFK Tower"@),
        station("klax3"@, "LAX Tower North"@, "KLAX"@, "133.900"@, "Los Angeles Tower North"@),
        station(
            "kord1n2_twr_n"@,
            "ORD Tower North"@,
            "KORD"@,
            "126.900"@,
            "Chicago O'Hare Tower North"@,
        ),
        station("cyyz9"@, "Toronto Pearson Apron"@, "CYYZ"@, "Apron"@, "Toronto Pearson Apron"@),
    ]
}

/// The music sources of the catalog.
pub open spec fn catalog_sources() -> Seq<Source> {
    seq![
        youtube_source("lofi_girl"@, "Lofi Girl - beats to relax/study to"@, "jfKfPfyJRdk"@),
        youtube_source("lofi_girl_sleep"@, "Lofi Girl - beats to sleep/chill to"@, "rUxyKA_-grg"@),
        youtube_source("lofi_girl_synthwave"@, "Lofi Girl - synthwave radio"@, "4xDzrJKXOOY"@),
        youtube_source("college_music"@, "College Music - lofi hip hop radio"@, "7NOSDKb0HlU"@),
    ]
}

/// The first of `sources` with the identifier `id`.
pub open spec fn source_with(sources: Seq<Source>, id: Seq<char>) -> Option<Source>
    decreases sources.len(),
{
    if sources.len() == 0 {
        None
    } else if sources[0].id == id {
        Some(sources[0])
    } else {
        source_with(sources.drop_first(), id)
    }
}

fn make_station(
    id: &str,
    name: &str,
    airport_code: &str,
    frequency: &str,
    description: &str,
) -> (out: AtcStation)
    ensures
        out@ == station(id@, name@, airport_code@, frequency@, description@),
{
    AtcStation {
        id: String::from_str(id),
        name: String::from_str(name),
        airport_code: String::from_str(airport_code),
        frequency: String::from_str(frequency),
        description: String::from_str(description),
        stream_url: String::from_str("http://d.liveatc.net/").concat(id),
    }
}

fn make_youtube_source(id: &str, name: &str, video: &str) -> (out: MusicSource)
    ensures
        out@ == youtube_source(id@, name@, video@),
{
    MusicSource {
        id: String::from_str(id),
        name: String::from_str(name),
        source_type: String::from_str("youtube"),
        stream_url: String::from_str("https://www.youtube.com/watch?v=").concat(video),
        thumbnail: Some(
            String::from_str("https://i.ytimg.com/vi/").concat(video).concat("/maxresdefault.jpg"),
        ),
    }
}

/// The stations of the catalog.
pub fn atc_stations() -> (stations: Vec<AtcStation>)
    ensures
        stations_view(stations@) == catalog_stations(),
{
    let mut stations: Vec<AtcStation> = Vec::new();
    stations.push(make_station("kjfk_twr", "JFK Tower", "KJFK", "123.900", "New York JFK Tower"));
    stations.push(
        make_station("klax3", "LAX Tower North", "KLAX", "133.900", "Los Angeles Tower North"),
    );
    stations.push(
        make_station(
            "kord1n2_twr_n",
            "ORD Tower North",
            "KORD",
            "126.900",
            "Chicago O'Hare Tower North",
        ),
    );
    stations.push(
        make_station("cyyz9", "Toronto Pearson Apron", "CYYZ", "Apron", "Toronto Pearson Apron"),
    );
    stations
}

/// The music sources of the catalog.
pub fn music_sources() -> (sources: Vec<MusicSource>)
    ensures
        sources_view(sources@) == catalog_sources(),
{
    let mut sources: Vec<MusicSource> = Vec::new();
    sources.push(
        make_youtube_source("lofi_girl", "Lofi Girl - beats to relax/study to", "jfKfPfyJRdk"),
    );
    sources.push(
        make_youtube_source(
            "lofi_girl_sleep",
            "Lofi Girl - beats to sleep/chill to",
            "rUxyKA_-grg",
        ),
    );
    sources.push(
        make_youtube_source("lofi_girl_synthwave", "Lofi Girl - synthwave radio", "4xDzrJKXOOY"),
    );
    sources.push(
        make_youtube_source("college_music", "College Music - lofi hip hop radio", "7NOSDKb0HlU"),
    );
    sources
}

/// The first of `sources` with the identifier `id`, if there is one.
pub fn find_music_source<'a>(sources: &'a Vec<MusicSource>, id: &str) -> (found: Option<
    &'a MusicSource,
>)
    ensures
        match found {
            Some(source) => source_with(sources_view(sources@), id@) == Some(source@),
            None => source_with(sources_view(sources@), id@) is None,
        },
{
    let wanted = String::from_str(id);
    let ghost all = sources_view(sources@);
    let mut i: usize = 0;
    assert(all.skip(0) == all);
    while i < sources.len()
        invariant
            i <= sources.len(),
            wanted@ == id@,
            all == sources_view(sources@),
            source_with(all, id@) == source_with(all.skip(i as int), id@),
        decreases sources.len() - i,
    {
        if sources[i].id == wanted {
            return Some(&sources[i]);
        }
        assert(all.skip(i as int).drop_first() == all.skip(i + 1));
        i += 1;
    }
    None
}

} // verus!
