//! The databases that the search service indexes, by index number.

use vstd::prelude::*;

verus! {
/// Index of H-Magazines.
pub const H_MAGAZINES: u32 = 0;
/// Index of H-Game CG.
pub const H_GAME_CG: u32 = 2;
/// Index of DoujinshiDB.
pub const DOUJINSHI_DB: u32 = 3;
/// Index of Pixiv.
pub const PIXIV: u32 = 5;
/// Index of Nico Nico Seiga.
pub const NICO_NICO_SEIGA: u32 = 8;
/// Index of Danbooru.
pub const DANBOORU: u32 = 9;
/// Index of drawr Images.
pub const DRAWR: u32 = 10;
/// Index of Nijie Images.
pub const NIJIE: u32 = 11;
/// Index of Yande.re.
pub const YANDE_RE: u32 = 12;
/// Index of Shutterstock.
pub const SHUTTERSTOCK: u32 = 15;
/// Index of FAKKU.
pub const FAKKU: u32 = 16;
/// Index of H-Misc.
pub const H_MISC: u32 = 18;
/// Index of 2D-Market.
pub const TWO_D_MARKET: u32 = 19;
/// Index of MediBang.
pub const MEDIBANG: u32 = 20;
/// Index of Anime.
pub const ANIME: u32 = 21;
/// Index of H-Anime.
pub const H_ANIME: u32 = 22;
/// Index of Movies.
pub const MOVIES: u32 = 23;
/// Index of Shows.
pub const SHOWS: u32 = 24;
/// Index of Gelbooru.
pub const GELBOORU: u32 = 25;
/// Index of Konachan.
pub const KONACHAN: u32 = 26;
/// Index of Sankaku Channel.
pub const SANKAKU_CHANNEL: u32 = 27;
/// Index of Anime-Pictures.net.
pub const ANIME_PICTURES_NET: u32 = 28;
/// Index of e621.net.
pub const E621_NET: u32 = 29;
/// Index of Idol Complex.
pub const IDOL_COMPLEX: u32 = 30;
/// Index of bcy.net Illust.
pub const BCY_NET_ILLUST: u32 = 31;
/// Index of bcy.net Cosplay.
pub const BCY_NET_COSPLAY: u32 = 32;
/// Index of PortalGraphics.net.
pub const PORTALGRAPHICS_NET: u32 = 33;
/// Index of deviantArt.
pub const DEVIANTART: u32 = 34;
/// Index of Pawoo.net.
pub const PAWOO_NET: u32 = 35;
/// Index of Madokami.
pub const MADOKAMI: u32 = 36;
/// Index of MangaDex.
pub const MANGADEX: u32 = 37;

/// A database of the search service: its index and its name.
#[derive(Clone, Copy, Debug)]
pub struct Source {
    pub index: u32,
    pub name: &'static str,
}

/// The name of the database with index `index`, if there is one.
pub open spec fn source_name(index: u32) -> Option<Seq<char>> {
    if index == H_MAGAZINES {
        Some("H-Magazines"@)
    } else if index == H_GAME_CG {
        Some("H-Game CG"@)
    } else if index == DOUJINSHI_DB {
        Some("DoujinshiDB"@)
    } else if index == PIXIV {
        Some("Pixiv"@)
    } else if index == NICO_NICO_SEIGA {
        Some("Nico Nico Seiga"@)
    } else if index == DANBOORU {
        Some("Danbooru"@)
    } else if index == DRAWR {
        Some("drawr Images"@)
    } else if index == NIJIE {
        Some("Nijie Images"@)
    } else if index == YANDE_RE {
        Some("Yande.re"@)
    } else if index == SHUTTERSTOCK {
        Some("Shutterstock"@)
    } else if index == FAKKU {
        Some("FAKKU"@)
    } else if index == H_MISC {
        Some("H-Misc"@)
    } else if index == TWO_D_MARKET {
        Some("2D-Market"@)
    } else if index == MEDIBANG {
        Some("MediBang"@)
    } else if index == ANIME {
        Some("Anime"@)
    } else if index == H_ANIME {
        Some("H-Anime"@)
    } else if index == MOVIES {
        Some("Movies"@)
    } else if index == SHOWS {
        Some("Shows"@)
    } else if index == GELBOORU {
        Some("Gelbooru"@)
    } else if index == KONACHAN {
        Some("Konachan"@)
    } else if index == SANKAKU_CHANNEL {
        Some("Sankaku Channel"@)
    } else if index == ANIME_PICTURES_NET {
        Some("Anime-Pictures.net"@)
    } else if index == E621_NET {
        Some("e621.net"@)
    } else if index == IDOL_COMPLEX {
        Some("Idol Complex"@)
    } else if index == BCY_NET_ILLUST {
        Some("bcy.net Illust"@)
    } else if index == BCY_NET_COSPLAY {
        Some("bcy.net Cosplay"@)
    } else if index == PORTALGRAPHICS_NET {
        Some("PortalGraphics.net"@)
    } else if index == DEVIANTART {
        Some("deviantArt"@)
    } else if index == PAWOO_NET {
        Some("Pawoo.net"@)
    } else if index == MADOKAMI {
        Some("Madokami"@)
    } else if index == MANGADEX {
        Some("MangaDex"@)
    } else {
        None
    }
}

/// Returns the database with index `index`, if there is one.
pub fn get_source(index: u32) -> (r: Option<Source>)
    ensures
        match r {
            Some(s) => source_name(index) == Some(s.name@) && s.index == index,
            None => source_name(index) is None,
        },
{
    let name: &'static str = if index == H_MAGAZINES {
        "H-Magazines"
    } else if index == H_GAME_CG {
        "H-Game CG"
    } else if index == DOUJINSHI_DB {
        "DoujinshiDB"
    } else if index == PIXIV {
        "Pixiv"
    } else if index == NICO_NICO_SEIGA {
        "Nico Nico Seiga"
    } else if index == DANBOORU {
        "Danbooru"
    } else if index == DRAWR {
        "drawr Images"
    } else if index == NIJIE {
        "Nijie Images"
    } else if index == YANDE_RE {
        "Yande.re"
    } else if index == SHUTTERSTOCK {
        "Shutterstock"
    } else if index == FAKKU {
        "FAKKU"
    } else if index == H_MISC {
        "H-Misc"
    } else if index == TWO_D_MARKET {
        "2D-Market"
    } else if index == MEDIBANG {
        "MediBang"
    } else if index == ANIME {
        "Anime"
    } else if index == H_ANIME {
        "H-Anime"
    } else if index == MOVIES {
        "Movies"
    } else if index == SHOWS {
        "Shows"
    } else if index == GELBOORU {
        "Gelbooru"
    } else if index == KONACHAN {
        "Konachan"
    } else if index == SANKAKU_CHANNEL {
        "Sankaku Channel"
    } else if index == ANIME_PICTURES_NET {
        "Anime-Pictures.net"
    } else if index == E621_NET {
        "e621.net"
    } else if index == IDOL_COMPLEX {
        "Idol Complex"
    } else if index == BCY_NET_ILLUST {
        "bcy.net Illust"
    } else if index == BCY_NET_COSPLAY {
        "bcy.net Cosplay"
    } else if index == PORTALGRAPHICS_NET {
        "PortalGraphics.net"
    } else if index == DEVIANTART {
        "deviantArt"
    } else if index == PAWOO_NET {
        "Pawoo.net"
    } else if index == MADOKAMI {
        "Madokami"
    } else if index == MANGADEX {
        "MangaDex"
    } else {
        return None;
    };
    Some(Source { index, name })
}

} // verus!
