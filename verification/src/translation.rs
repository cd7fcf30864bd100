//! The translation record loaded from a per-language file, and its
//! projections: the full label record handed to the interface, the few
//! strings kept for local formatting, and the translated continent names.

use vstd::prelude::*;
use crate::configure::Continent;

verus! {

/// The flat record of translated display strings, one file per language.
#[derive(Debug)]
pub struct TranslationRs {
    pub cont_e: String,
    pub play: String,
    pub restart: String,
    pub settings: String,
    pub about: String,
    pub end: String,
    pub close: String,
    pub name: String,
    pub capital: String,
    pub continent: String,
    pub code: String,
    pub answer: String,
    pub info: String,
    pub help: String,
    pub exit_o_p: String,
    pub exit: String,
    pub pause: String,
    pub eur: String,
    pub asi: String,
    pub afr: String,
    pub nam: String,
    pub sam: String,
    pub oce: String,
    pub flags: String,
    pub capitals: String,
    pub flag_and_c: String,
    pub sel_pref_reg: String,
    pub sel_mode: String,
    pub p_10_n: String,
    pub p_25_n: String,
    pub p_hard: String,
    pub sel_b_color: String,
    pub sel_lang: String,
    pub time_out: String,
}

/// The label record applied verbatim to the interface's label slots.
#[derive(Debug)]
pub struct Translation {
    pub cont_e: String,
    pub play: String,
    pub restart: String,
    pub settings: String,
    pub about: String,
    pub end: String,
    pub close: String,
    pub name: String,
    pub capital: String,
    pub continent: String,
    pub code: String,
    pub answer: String,
    pub info: String,
    pub help: String,
    pub exit_o_p: String,
    pub exit: String,
    pub pause: String,
    pub eur: String,
    pub asi: String,
    pub afr: String,
    pub nam: String,
    pub sam: String,
    pub oce: String,
    pub flags: String,
    pub capitals: String,
    pub flag_and_c: String,
    pub sel_pref_reg: String,
    pub sel_mode: String,
    pub p_10_n: String,
    pub p_25_n: String,
    pub p_hard: String,
    pub sel_b_color: String,
    pub sel_lang: String,
}

/// The translated strings kept outside the interface for local
/// formatting.
#[derive(Debug)]
pub struct LocalTranslation {
    pub time_out: String,
}

/// The translated continent names, used for the post-round info record.
#[derive(Debug)]
pub struct ContinentsTranslation {
    pub eur: String,
    pub asi: String,
    pub afr: String,
    pub nam: String,
    pub sam: String,
    pub oce: String,
}

/// The translated display name of a continent; `Other` has no translation
/// and renders as the "null" sentinel.
pub open spec fn continent_name_spec(c: Continent, tr: ContinentsTranslation) -> Seq<char> {
    match c {
        Continent::Europe => tr.eur@,
        Continent::Asia => tr.asi@,
        Continent::Africa => tr.afr@,
        Continent::NorthAmerica => tr.nam@,
        Continent::SouthAmerica => tr.sam@,
        Continent::Oceania => tr.oce@,
        Continent::Other => "null"@,
    }
}

impl Continent {
    /// The translated display name of this continent, "null" for `Other`.
    pub fn ret_continent_name(&self, tr: &ContinentsTranslation) -> (r: String)
        ensures
            r@ == continent_name_spec(*self, *tr),
    {
        match self {
            Continent::Europe => tr.eur.clone(),
            Continent::Asia => tr.asi.clone(),
            Continent::Africa => tr.afr.clone(),
            Continent::NorthAmerica => tr.nam.clone(),
            Continent::SouthAmerica => tr.sam.clone(),
            Continent::Oceania => tr.oce.clone(),
            Continent::Other => "null".to_owned(),
        }
    }
}

impl TranslationRs {
    /// The strings kept for local formatting: the time-out notice.
    pub fn local_translation(&self) -> (r: LocalTranslation)
        ensures
            r.time_out@ == self.time_out@,
    {
        LocalTranslation { time_out: self.time_out.clone() }
    }

    /// The translated continent names of this record.
    pub fn continents_translation(&self) -> (r: ContinentsTranslation)
        ensures
            r.eur@ == self.eur@,
            r.asi@ == self.asi@,
            r.afr@ == self.afr@,
            r.nam@ == self.nam@,
            r.sam@ == self.sam@,
            r.oce@ == self.oce@,
    {
        ContinentsTranslation {
            eur: self.eur.clone(),
            asi: self.asi.clone(),
            afr: self.afr.clone(),
            nam: self.nam.clone(),
            sam: self.sam.clone(),
            oce: self.oce.clone(),
        }
    }

    /// The full label record for the interface, each slot carrying the
    /// corresponding translated string verbatim.
    pub fn to_translation(&self) -> (r: Translation)
        ensures
            r.cont_e@ == self.cont_e@,
            r.play@ == self.play@,
            r.restart@ == self.restart@,
            r.settings@ == self.settings@,
            r.about@ == self.about@,
            r.end@ == self.end@,
            r.close@ == self.close@,
            r.name@ == self.name@,
            r.capital@ == self.capital@,
            r.continent@ == self.continent@,
            r.code@ == self.code@,
            r.answer@ == self.answer@,
            r.info@ == self.info@,
            r.help@ == self.help@,
            r.exit_o_p@ == self.exit_o_p@,
            r.exit@ == self.exit@,
            r.pause@ == self.pause@,
            r.eur@ == self.eur@,
            r.asi@ == self.asi@,
            r.afr@ == self.afr@,
            r.nam@ == self.nam@,
            r.sam@ == self.sam@,
            r.oce@ == self.oce@,
            r.flags@ == self.flags@,
            r.capitals@ == self.capitals@,
            r.flag_and_c@ == self.flag_and_c@,
            r.sel_pref_reg@ == self.sel_pref_reg@,
            r.sel_mode@ == self.sel_mode@,
            r.p_10_n@ == self.p_10_n@,
            r.p_25_n@ == self.p_25_n@,
            r.p_hard@ == self.p_hard@,
            r.sel_b_color@ == self.sel_b_color@,
            r.sel_lang@ == self.sel_lang@,
    {
        Translation {
            cont_e: self.cont_e.clone(),
            play: self.play.clone(),
            restart: self.restart.clone(),
            settings: self.settings.clone(),
            about: self.about.clone(),
            end: self.end.clone(),
            close: self.close.clone(),
            name: self.name.clone(),
            capital: self.capital.clone(),
            continent: self.continent.clone(),
            code: self.code.clone(),
            answer: self.answer.clone(),
            info: self.info.clone(),
            help: self.help.clone(),
            exit_o_p: self.exit_o_p.clone(),
            exit: self.exit.clone(),
            pause: self.pause.clone(),
            eur: self.eur.clone(),
            asi: self.asi.clone(),
            afr: self.afr.clone(),
            nam: self.nam.clone(),
            sam: self.sam.clone(),
            oce: self.oce.clone(),
            flags: self.flags.clone(),
            capitals: self.capitals.clone(),
            flag_and_c: self.flag_and_c.clone(),
            sel_pref_reg: self.sel_pref_reg.clone(),
            sel_mode: self.sel_mode.clone(),
            p_10_n: self.p_10_n.clone(),
            p_25_n: self.p_25_n.clone(),
            p_hard: self.p_hard.clone(),
            sel_b_color: self.sel_b_color.clone(),
            sel_lang: self.sel_lang.clone(),
        }
    }
}

} // verus!
