//! The weekly Torah reading.

use vstd::prelude::*;
use crate::calendar::{
    has_solar_date, hebrew_date_of, lemma_solar_date_range, missing_month_text,
    no_solar_date_text, weekday_of, DateConverter, HebrewDate, HebrewMonth,
};
use crate::molad::{is_leap_year, year_start, year_supported};
use crate::solar::SolarDate;
use crate::CalendarError;

verus! {

/// A weekly reading: one of the fifty-four portions of the Torah, two
/// portions read together, or no portion at all.
#[derive(Debug, Clone, Copy, PartialEq, Eq, Structural)]
pub enum Parsha {
    Bereshit,
    Noach,
    LechLecha,
    Vayera,
    ChayeiSara,
    Toldot,
    Vayetzei,
    Vayishlach,
    Vayeshev,
    Miketz,
    Vayigash,
    Vayechi,
    Shemot,
    Vaera,
    Bo,
    Beshalach,
    Yitro,
    Mishpatim,
    Terumah,
    Tetzaveh,
    KiTisa,
    Vayakhel,
    Pekudei,
    Vayikra,
    Tzav,
    Shemini,
    Tazria,
    Metzora,
    AchreiMot,
    Kedoshim,
    Emor,
    Behar,
    Bechukotai,
    Bamidbar,
    Nasso,
    Behaalotecha,
    Shelach,
    Korach,
    Chukat,
    Balak,
    Pinchas,
    Matot,
    Masei,
    Devarim,
    Vaetchanan,
    Eikev,
    Reeh,
    Shoftim,
    KiTeitzei,
    KiTavo,
    Nitzavim,
    Vayeilech,
    HaAzinu,
    VezotHaberacha,
    // two portions read on one Shabbat
    VayakhelPekudei,
    TazriaMetzora,
    AchreiMotKedoshim,
    BeharBechukotai,
    ChukatBalak,
    MatotMasei,
    NitzavimVayeilech,
    // a Shabbat without a portion of the cycle
    HaftarahOnly,
}

impl Parsha {
    /// The English name of the reading.
    pub open spec fn name_text(self) -> &'static str {
        match self {
            Parsha::Bereshit => "Bereshit",
            Parsha::Noach => "Noach",
            Parsha::LechLecha => "Lech Lecha",
            Parsha::Vayera => "Vayera",
            Parsha::ChayeiSara => "Chayei Sara",
            Parsha::Toldot => "Toldot",
            Parsha::Vayetzei => "Vayetzei",
            Parsha::Vayishlach => "Vayishlach",
            Parsha::Vayeshev => "Vayeshev",
            Parsha::Miketz => "Miketz",
            Parsha::Vayigash => "Vayigash",
            Parsha::Vayechi => "Vayechi",
            Parsha::Shemot => "Shemot",
            Parsha::Vaera => "Vaera",
            Parsha::Bo => "Bo",
            Parsha::Beshalach => "Beshalach",
            Parsha::Yitro => "Yitro",
            Parsha::Mishpatim => "Mishpatim",
            Parsha::Terumah => "Terumah",
            Parsha::Tetzaveh => "Tetzaveh",
            Parsha::KiTisa => "Ki Tisa",
            Parsha::Vayakhel => "Vayakhel",
            Parsha::Pekudei => "Pekudei",
            Parsha::Vayikra => "Vayikra",
            Parsha::Tzav => "Tzav",
            Parsha::Shemini => "Shemini",
            Parsha::Tazria => "Tazria",
            Parsha::Metzora => "Metzora",
            Parsha::AchreiMot => "Achrei Mot",
            Parsha::Kedoshim => "Kedoshim",
            Parsha::Emor => "Emor",
            Parsha::Behar => "Behar",
            Parsha::Bechukotai => "Bechukotai",
            Parsha::Bamidbar => "Bamidbar",
            Parsha::Nasso => "Nasso",
            Parsha::Behaalotecha => "Behaalotecha",
            Parsha::Shelach => "Shelach",
            Parsha::Korach => "Korach",
            Parsha::Chukat => "Chukat",
            Parsha::Balak => "Balak",
            Parsha::Pinchas => "Pinchas",
            Parsha::Matot => "Matot",
            Parsha::Masei => "Masei",
            Parsha::Devarim => "Devarim",
            Parsha::Vaetchanan => "Vaetchanan",
            Parsha::Eikev => "Eikev",
            Parsha::Reeh => "Reeh",
            Parsha::Shoftim => "Shoftim",
            Parsha::KiTeitzei => "Ki Teitzei",
            Parsha::KiTavo => "Ki Tavo",
            Parsha::Nitzavim => "Nitzavim",
            Parsha::Vayeilech => "Vayeilech",
            Parsha::HaAzinu => "HaAzinu",
            Parsha::VezotHaberacha => "Vezot Haberacha",
            Parsha::VayakhelPekudei => "Vayakhel-Pekudei",
            Parsha::TazriaMetzora => "Tazria-Metzora",
            Parsha::AchreiMotKedoshim => "Achrei Mot-Kedoshim",
            Parsha::BeharBechukotai => "Behar-Bechukotai",
            Parsha::ChukatBalak => "Chukat-Balak",
            Parsha::MatotMasei => "Matot-Masei",
            Parsha::NitzavimVayeilech => "Nitzavim-Vayeilech",
            Parsha::HaftarahOnly => "Haftarah Only",
        }
    }

    /// The Hebrew name of the reading; empty for the readings that have
    /// none of their own.
    pub open spec fn hebrew_name_text(self) -> &'static str {
        match self {
            Parsha::Bereshit => "בראשית",
            Parsha::Noach => "נח",
            Parsha::LechLecha => "לך לך",
            Parsha::Vayera => "וירא",
            Parsha::ChayeiSara => "חיי שרה",
            Parsha::Toldot => "תולדות",
            Parsha::Vayetzei => "ויצא",
            Parsha::Vayishlach => "וישלח",
            Parsha::Vayeshev => "וישב",
            Parsha::Miketz => "מקץ",
            Parsha::Vayigash => "ויגש",
            Parsha::Vayechi => "ויחי",
            Parsha::Shemot => "שמות",
            Parsha::Vaera => "וארא",
            Parsha::Bo => "בא",
            Parsha::Beshalach => "בשלח",
            Parsha::Yitro => "יתרו",
            Parsha::Mishpatim => "משפטים",
            Parsha::Terumah => "תרומה",
            Parsha::Tetzaveh => "תצוה",
            Parsha::KiTisa => "כי תשא",
            Parsha::Vayakhel => "ויקהל",
            Parsha::Pekudei => "פקודי",
            Parsha::Vayikra => "ויקרא",
            Parsha::Tzav => "צו",
            Parsha::Shemini => "שמיני",
            Parsha::Tazria => "תזריע",
            Parsha::Metzora => "מצורע",
            Parsha::AchreiMot => "אחרי מות",
            Parsha::Kedoshim => "קדושים",
            Parsha::Emor => "אמור",
            Parsha::Behar => "בהר",
            Parsha::Bechukotai => "בחקותי",
            Parsha::Bamidbar => "במדבר",
            Parsha::Nasso => "נשא",
            Parsha::Behaalotecha => "בהעלותך",
            Parsha::Shelach => "שלח",
            Parsha::Korach => "קרח",
            Parsha::Chukat => "חקת",
            Parsha::Balak => "בלק",
            Parsha::Pinchas => "פינחס",
            Parsha::Matot => "מטות",
            Parsha::Masei => "מסעי",
            Parsha::Devarim => "דברים",
            Parsha::Vaetchanan => "ואתחנן",
            Parsha::Eikev => "עקב",
            Parsha::Reeh => "ראה",
            Parsha::Shoftim => "שופטים",
            Parsha::KiTeitzei => "כי תצא",
            Parsha::KiTavo => "כי תבוא",
            Parsha::Nitzavim => "נצבים",
            Parsha::Vayeilech => "וילך",
            Parsha::HaAzinu => "האזינו",
            Parsha::VezotHaberacha => "וזאת הברכה",
            _ => "",
        }
    }

    /// The English name of the reading.
    pub fn name(&self) -> (name: &'static str)
        ensures
            name == self.name_text(),
    {
        match self {
            Parsha::Bereshit => "Bereshit",
            Parsha::Noach => "Noach",
            Parsha::LechLecha => "Lech Lecha",
            Parsha::Vayera => "Vayera",
            Parsha::ChayeiSara => "Chayei Sara",
            Parsha::Toldot => "Toldot",
            Parsha::Vayetzei => "Vayetzei",
            Parsha::Vayishlach => "Vayishlach",
            Parsha::Vayeshev => "Vayeshev",
            Parsha::Miketz => "Miketz",
            Parsha::Vayigash => "Vayigash",
            Parsha::Vayechi => "Vayechi",
            Parsha::Shemot => "Shemot",
            Parsha::Vaera => "Vaera",
            Parsha::Bo => "Bo",
            Parsha::Beshalach => "Beshalach",
            Parsha::Yitro => "Yitro",
            Parsha::Mishpatim => "Mishpatim",
            Parsha::Terumah => "Terumah",
            Parsha::Tetzaveh => "Tetzaveh",
            Parsha::KiTisa => "Ki Tisa",
            Parsha::Vayakhel => "Vayakhel",
            Parsha::Pekudei => "Pekudei",
            Parsha::Vayikra => "Vayikra",
            Parsha::Tzav => "Tzav",
            Parsha::Shemini => "Shemini",
            Parsha::Tazria => "Tazria",
            Parsha::Metzora => "Metzora",
            Parsha::AchreiMot => "Achrei Mot",
            Parsha::Kedoshim => "Kedoshim",
            Parsha::Emor => "Emor",
            Parsha::Behar => "Behar",
            Parsha::Bechukotai => "Bechukotai",
            Parsha::Bamidbar => "Bamidbar",
            Parsha::Nasso => "Nasso",
            Parsha::Behaalotecha => "Behaalotecha",
            Parsha::Shelach => "Shelach",
            Parsha::Korach => "Korach",
            Parsha::Chukat => "Chukat",
            Parsha::Balak => "Balak",
            Parsha::Pinchas => "Pinchas",
            Parsha::Matot => "Matot",
            Parsha::Masei => "Masei",
            Parsha::Devarim => "Devarim",
            Parsha::Vaetchanan => "Vaetchanan",
            Parsha::Eikev => "Eikev",
            Parsha::Reeh => "Reeh",
            Parsha::Shoftim => "Shoftim",
            Parsha::KiTeitzei => "Ki Teitzei",
            Parsha::KiTavo => "Ki Tavo",
            Parsha::Nitzavim => "Nitzavim",
            Parsha::Vayeilech => "Vayeilech",
            Parsha::HaAzinu => "HaAzinu",
            Parsha::VezotHaberacha => "Vezot Haberacha",
            Parsha::VayakhelPekudei => "Vayakhel-Pekudei",
            Parsha::TazriaMetzora => "Tazria-Metzora",
            Parsha::AchreiMotKedoshim => "Achrei Mot-Kedoshim",
            Parsha::BeharBechukotai => "Behar-Bechukotai",
            Parsha::ChukatBalak => "Chukat-Balak",
            Parsha::MatotMasei => "Matot-Masei",
            Parsha::NitzavimVayeilech => "Nitzavim-Vayeilech",
            Parsha::HaftarahOnly => "Haftarah Only",
        }
    }

    /// The Hebrew name of the reading.
    pub fn hebrew_name(&self) -> (name: &'static str)
        ensures
            name == self.hebrew_name_text(),
    {
        match self {
            Parsha::Bereshit => "בראשית",
            Parsha::Noach => "נח",
            Parsha::LechLecha => "לך לך",
            Parsha::Vayera => "וירא",
            Parsha::ChayeiSara => "חיי שרה",
            Parsha::Toldot => "תולדות",
            Parsha::Vayetzei => "ויצא",
            Parsha::Vayishlach => "וישלח",
            Parsha::Vayeshev => "וישב",
            Parsha::Miketz => "מקץ",
            Parsha::Vayigash => "ויגש",
            Parsha::Vayechi => "ויחי",
            Parsha::Shemot => "שמות",
            Parsha::Vaera => "וארא",
            Parsha::Bo => "בא",
            Parsha::Beshalach => "בשלח",
            Parsha::Yitro => "יתרו",
            Parsha::Mishpatim => "משפטים",
            Parsha::Terumah => "תרומה",
            Parsha::Tetzaveh => "תצוה",
            Parsha::KiTisa => "כי תשא",
            Parsha::Vayakhel => "ויקהל",
            Parsha::Pekudei => "פקודי",
            Parsha::Vayikra => "ויקרא",
            Parsha::Tzav => "צו",
            Parsha::Shemini => "שמיני",
            Parsha::Tazria => "תזריע",
            Parsha::Metzora => "מצורע",
            Parsha::AchreiMot => "אחרי מות",
            Parsha::Kedoshim => "קדושים",
            Parsha::Emor => "אמור",
            Parsha::Behar => "בהר",
            Parsha::Bechukotai => "בחקותי",
            Parsha::Bamidbar => "במדבר",
            Parsha::Nasso => "נשא",
            Parsha::Behaalotecha => "בהעלותך",
            Parsha::Shelach => "שלח",
            Parsha::Korach => "קרח",
            Parsha::Chukat => "חקת",
            Parsha::Balak => "בלק",
            Parsha::Pinchas => "פינחס",
            Parsha::Matot => "מטות",
            Parsha::Masei => "מסעי",
            Parsha::Devarim => "דברים",
            Parsha::Vaetchanan => "ואתחנן",
            Parsha::Eikev => "עקב",
            Parsha::Reeh => "ראה",
            Parsha::Shoftim => "שופטים",
            Parsha::KiTeitzei => "כי תצא",
            Parsha::KiTavo => "כי תבוא",
            Parsha::Nitzavim => "נצבים",
            Parsha::Vayeilech => "וילך",
            Parsha::HaAzinu => "האזינו",
            Parsha::VezotHaberacha => "וזאת הברכה",
            _ => "",
        }
    }
}

/// The portions in the order of the cycle, from Bereshit to HaAzinu.
pub open spec fn standard_sequence() -> Seq<Parsha> {
    seq![
        Parsha::Bereshit,
        Parsha::Noach,
        Parsha::LechLecha,
        Parsha::Vayera,
        Parsha::ChayeiSara,
        Parsha::Toldot,
        Parsha::Vayetzei,
        Parsha::Vayishlach,
        Parsha::Vayeshev,
        Parsha::Miketz,
        Parsha::Vayigash,
        Parsha::Vayechi,
        Parsha::Shemot,
        Parsha::Vaera,
        Parsha::Bo,
        Parsha::Beshalach,
        Parsha::Yitro,
        Parsha::Mishpatim,
        Parsha::Terumah,
        Parsha::Tetzaveh,
        Parsha::KiTisa,
        Parsha::Vayakhel,
        Parsha::Pekudei,
        Parsha::Vayikra,
        Parsha::Tzav,
        Parsha::Shemini,
        Parsha::Tazria,
        Parsha::Metzora,
        Parsha::AchreiMot,
        Parsha::Kedoshim,
        Parsha::Emor,
        Parsha::Behar,
        Parsha::Bechukotai,
        Parsha::Bamidbar,
        Parsha::Nasso,
        Parsha::Behaalotecha,
        Parsha::Shelach,
        Parsha::Korach,
        Parsha::Chukat,
        Parsha::Balak,
        Parsha::Pinchas,
        Parsha::Matot,
        Parsha::Masei,
        Parsha::Devarim,
        Parsha::Vaetchanan,
        Parsha::Eikev,
        Parsha::Reeh,
        Parsha::Shoftim,
        Parsha::KiTeitzei,
        Parsha::KiTavo,
        Parsha::Nitzavim,
        Parsha::Vayeilech,
        Parsha::HaAzinu,
    ]
}

/// The reading at a place of the cycle: a portion of the sequence, then
/// Vezot Haberacha, and after that none.
pub open spec fn reading_at(index: int) -> Parsha {
    if 0 <= index < standard_sequence().len() {
        standard_sequence()[index]
    } else if index == standard_sequence().len() {
        Parsha::VezotHaberacha
    } else {
        Parsha::HaftarahOnly
    }
}

/// The two portions that are read together in week `week`, if the week
/// is one on which two are. The table is keyed by the leap status of the
/// year, the weekday on which the year begins and the week: a leap year
/// has no such week, and a common year has six, whatever the weekday.
pub open spec fn combined_reading(leap: bool, rh_weekday: int, week: int) -> Option<Parsha> {
    if leap {
        None
    } else if week == 21 {
        Some(Parsha::VayakhelPekudei)
    } else if week == 26 {
        Some(Parsha::TazriaMetzora)
    } else if week == 29 {
        Some(Parsha::AchreiMotKedoshim)
    } else if week == 32 {
        Some(Parsha::BeharBechukotai)
    } else if week == 41 {
        Some(Parsha::MatotMasei)
    } else if week == 50 {
        Some(Parsha::NitzavimVayeilech)
    } else {
        None
    }
}

/// The place in the cycle that the table of adjustments gives for week
/// `week`: the week itself, and one less on the six weeks of a common
/// year on which two portions are read together.
pub open spec fn adjusted_week(week: int, leap: bool) -> int {
    if combined_reading(leap, 0, week) is Some {
        week - 1
    } else {
        week
    }
}

/// The reading of week `week` after Shabbat Bereshit: two portions
/// together on the weeks that have them, and otherwise the portion at
/// the place of the week in the cycle.
pub open spec fn reading_in_week(leap: bool, rh_weekday: int, week: int) -> Parsha {
    match combined_reading(leap, rh_weekday, week) {
        Some(pair) => pair,
        None => reading_at(week),
    }
}

/// The epoch day of the Shabbat on or after an epoch day.
pub open spec fn shabbat_on_or_after(epoch_day: int) -> int {
    epoch_day + 6 - weekday_of(epoch_day)
}

/// The epoch day of Shabbat Bereshit of `year`: the first Shabbat after
/// Simchat Torah, the twenty-third of Tishrei.
pub open spec fn bereshit_shabbat(year: int) -> int {
    shabbat_on_or_after(year_start(year) + 23)
}

/// A count of days in whole weeks, rounded towards zero.
pub open spec fn whole_weeks(days: int) -> int {
    if days >= 0 {
        days / 7
    } else {
        -((-days) / 7)
    }
}

/// The reading of the Shabbat `date`, by the weeks from Shabbat Bereshit
/// of its year. Before Shabbat Bereshit there is no reading of the cycle.
pub open spec fn reading_for_shabbat(date: HebrewDate) -> Parsha {
    let weeks = whole_weeks(date.epoch_day() - bereshit_shabbat(date.year as int));
    if weeks < 0 {
        Parsha::HaftarahOnly
    } else {
        reading_in_week(
            is_leap_year(date.year as int),
            weekday_of(year_start(date.year as int)),
            weeks,
        )
    }
}

/// The Shabbat of a date: the date itself if it is a Shabbat, and
/// otherwise the next Shabbat.
pub open spec fn shabbat_date_of(date: HebrewDate) -> HebrewDate {
    if weekday_of(date.epoch_day()) == 6 {
        date
    } else {
        hebrew_date_of(shabbat_on_or_after(date.epoch_day()))
    }
}

/// Whether the Shabbat of `date` can be found: the year of the date has
/// its month, and the Gregorian dates on the way are dates that a date
/// can hold.
pub open spec fn shabbat_reachable(date: HebrewDate) -> bool {
    &&& date.has_month()
    &&& has_solar_date(date.epoch_day())
    &&& has_solar_date(shabbat_on_or_after(date.epoch_day()))
}

/// Whether the reading of the Shabbat `date` can be found: the year of
/// the date has its month, and the Gregorian dates on the way are dates
/// that a date can hold.
pub open spec fn reading_reachable(date: HebrewDate) -> bool {
    &&& has_solar_date(year_start(date.year as int))
    &&& has_solar_date(year_start(date.year as int) + 22)
    &&& has_solar_date(bereshit_shabbat(date.year as int))
    &&& date.has_month()
    &&& has_solar_date(date.epoch_day())
}

/// The message where the Shabbat of `date` is not found: that the year
/// does not have the month, or else the first day on the way whose
/// Gregorian date cannot be held.
pub open spec fn shabbat_error_text(date: HebrewDate) -> Seq<char> {
    if !date.has_month() {
        missing_month_text()
    } else if !has_solar_date(date.epoch_day()) {
        no_solar_date_text(date.epoch_day())
    } else {
        no_solar_date_text(shabbat_on_or_after(date.epoch_day()))
    }
}

/// The message where the reading of the Shabbat `date` is not found: it
/// names the first day on the way whose Gregorian date cannot be held,
/// or says that the year of the date does not have its month. The way
/// leads over the first of Tishrei, Simchat Torah and Shabbat Bereshit
/// to the Shabbat itself.
pub open spec fn reading_error_text(date: HebrewDate) -> Seq<char> {
    let year = date.year as int;
    if !has_solar_date(year_start(year)) {
        no_solar_date_text(year_start(year))
    } else if !has_solar_date(year_start(year) + 22) {
        no_solar_date_text(year_start(year) + 22)
    } else if !has_solar_date(bereshit_shabbat(year)) {
        no_solar_date_text(bereshit_shabbat(year))
    } else if !date.has_month() {
        missing_month_text()
    } else {
        no_solar_date_text(date.epoch_day())
    }
}

/// A day of Tishrei lies that many days, less one, after the start of
/// its year, and every year has the month.
proof fn lemma_tishrei_day(year: i32, day: u8)
    ensures
        ({
            let date = HebrewDate { year, month: HebrewMonth::Tishrei, day };
            date.has_month() && date.epoch_day() == year_start(year as int) + day - 1
        }),
{
}

/// The first Shabbat after a day is seven days after a Shabbat, and the
/// days that are left of the week after any other day.
proof fn lemma_first_shabbat_after(day: int, weekday: int, days_to_shabbat: int)
    requires
        weekday == weekday_of(day),
        days_to_shabbat == (if weekday == 6 {
            7
        } else {
            (6 - weekday + 7) % 7
        }),
    ensures
        day + days_to_shabbat == shabbat_on_or_after(day + 1),
        1 <= days_to_shabbat <= 7,
{
}

/// The rules of the weekly reading.
pub struct ParshaCalculator;

impl ParshaCalculator {
    /// The reading of the Shabbat on or after `date`. A date in a month
    /// that its year does not have is a calculation error, and so is a
    /// Gregorian date on the way that cannot be held.
    pub fn get_parsha(date: &HebrewDate) -> (reading: Result<Parsha, CalendarError>)
        requires
            year_supported(date.year as int),
        ensures
            match reading {
                Ok(parsha) => {
                    &&& shabbat_reachable(*date)
                    &&& reading_reachable(shabbat_date_of(*date))
                    &&& parsha == reading_for_shabbat(shabbat_date_of(*date))
                },
                Err(CalendarError::CalculationError(text)) => if !shabbat_reachable(*date) {
                    text@ == shabbat_error_text(*date)
                } else {
                    &&& !reading_reachable(shabbat_date_of(*date))
                    &&& text@ == reading_error_text(shabbat_date_of(*date))
                },
                Err(_) => false,
            },
    {
        match Self::find_shabbat(date) {
            Ok(shabbat_date) => Self::calculate_parsha_for_shabbat(shabbat_date),
            Err(error) => Err(error),
        }
    }

    /// The weekday of a Gregorian date, from 0 for Sunday to 6 for
    /// Saturday.
    fn weekday_from_sunday(date: SolarDate) -> (weekday: u32)
        requires
            date.is_valid(),
        ensures
            weekday == weekday_of(date.epoch_day()),
    {
        let rd = DateConverter::gregorian_to_rd(date);
        ((rd as i64 % 7 + 7 + 6) % 7) as u32
    }

    /// The Gregorian date `days` days after `date`.
    fn add_days(date: SolarDate, days: i64) -> (later: Result<SolarDate, CalendarError>)
        requires
            date.is_valid(),
            0 <= days <= 7,
        ensures
            match later {
                Ok(found) => {
                    &&& has_solar_date(date.epoch_day() + days)
                    &&& found.is_valid()
                    &&& found.epoch_day() == date.epoch_day() + days
                },
                Err(CalendarError::CalculationError(text)) => {
                    &&& !has_solar_date(date.epoch_day() + days)
                    &&& text@ == no_solar_date_text(date.epoch_day() + days)
                },
                Err(_) => false,
            },
    {
        let rd = DateConverter::gregorian_to_rd(date);
        proof {
            lemma_solar_date_range(date);
        }
        DateConverter::rd_to_gregorian((rd as i64 + days) as i32)
    }

    /// The Shabbat of a date: the date itself if it is a Shabbat, and
    /// otherwise the next Shabbat.
    pub fn find_shabbat(date: &HebrewDate) -> (shabbat: Result<HebrewDate, CalendarError>)
        requires
            year_supported(date.year as int),
        ensures
            match shabbat {
                Ok(found) => {
                    &&& shabbat_reachable(*date)
                    &&& found == shabbat_date_of(*date)
                    &&& found.epoch_day() == shabbat_on_or_after(date.epoch_day())
                    &&& year_supported(found.year as int)
                },
                Err(CalendarError::CalculationError(text)) => {
                    &&& !shabbat_reachable(*date)
                    &&& text@ == shabbat_error_text(*date)
                },
                Err(_) => false,
            },
    {
        let gregorian = match DateConverter::hebrew_to_gregorian(*date) {
            Ok(found) => found,
            Err(error) => {
                return Err(error);
            },
        };
        let weekday = Self::weekday_from_sunday(gregorian);
        if weekday == 6 {
            return Ok(*date);
        }
        let days_to_add = 6 - weekday as i64;
        let shabbat_gregorian = match Self::add_days(gregorian, days_to_add) {
            Ok(found) => found,
            Err(error) => {
                return Err(error);
            },
        };
        DateConverter::gregorian_to_hebrew(shabbat_gregorian)
    }

    /// The Gregorian date of the day `day` of Tishrei of `year`.
    fn tishrei_gregorian(year: i32, day: u8) -> (date: Result<SolarDate, CalendarError>)
        requires
            year_supported(year as int),
        ensures
            match date {
                Ok(found) => {
                    &&& has_solar_date(year_start(year as int) + day - 1)
                    &&& found.is_valid()
                    &&& found.epoch_day() == year_start(year as int) + day - 1
                },
                Err(CalendarError::CalculationError(text)) => {
                    &&& !has_solar_date(year_start(year as int) + day - 1)
                    &&& text@ == no_solar_date_text(year_start(year as int) + day - 1)
                },
                Err(_) => false,
            },
    {
        proof {
            lemma_tishrei_day(year, day);
        }
        DateConverter::hebrew_to_gregorian(HebrewDate::new(year, HebrewMonth::Tishrei, day))
    }

    /// The first Shabbat after `date`: a week later if `date` is itself
    /// a Shabbat.
    fn first_shabbat_after(date: SolarDate) -> (shabbat: Result<SolarDate, CalendarError>)
        requires
            date.is_valid(),
        ensures
            match shabbat {
                Ok(found) => {
                    &&& has_solar_date(shabbat_on_or_after(date.epoch_day() + 1))
                    &&& found.is_valid()
                    &&& found.epoch_day() == shabbat_on_or_after(date.epoch_day() + 1)
                },
                Err(CalendarError::CalculationError(text)) => {
                    &&& !has_solar_date(shabbat_on_or_after(date.epoch_day() + 1))
                    &&& text@ == no_solar_date_text(shabbat_on_or_after(date.epoch_day() + 1))
                },
                Err(_) => false,
            },
    {
        let weekday = Self::weekday_from_sunday(date);
        let days_to_shabbat: i64 = if weekday == 6 {
            7
        } else {
            (6 - weekday as i64 + 7) % 7
        };
        proof {
            lemma_first_shabbat_after(date.epoch_day(), weekday as int, days_to_shabbat as int);
        }
        Self::add_days(date, days_to_shabbat)
    }

    /// The whole weeks from the day `from` to the day `to`; less than
    /// none where `to` lies a week or more before `from`.
    fn weeks_between(from: SolarDate, to: SolarDate) -> (weeks: i64)
        requires
            from.is_valid(),
            to.is_valid(),
        ensures
            weeks == whole_weeks(to.epoch_day() - from.epoch_day()),
            -30_000_000 <= weeks <= 30_000_000,
    {
        proof {
            lemma_solar_date_range(from);
            lemma_solar_date_range(to);
        }
        let days: i64 = DateConverter::gregorian_to_rd(to) as i64 - DateConverter::gregorian_to_rd(
            from,
        ) as i64;
        days / 7
    }

    /// The reading of the Shabbat `date`, by the whole weeks from Shabbat
    /// Bereshit of its year. A date in a month that its year does not
    /// have is a calculation error, and so is a Gregorian date on the way
    /// that cannot be held.
    pub fn calculate_parsha_for_shabbat(date: HebrewDate) -> (reading: Result<
        Parsha,
        CalendarError,
    >)
        requires
            year_supported(date.year as int),
        ensures
            match reading {
                Ok(parsha) => reading_reachable(date) && parsha == reading_for_shabbat(date),
                Err(CalendarError::CalculationError(text)) => {
                    &&& !reading_reachable(date)
                    &&& text@ == reading_error_text(date)
                },
                Err(_) => false,
            },
    {
        let year = date.year;
        let is_leap = DateConverter::is_hebrew_leap_year(year);

        // the weekday on which the year begins
        let rosh_gregorian = match Self::tishrei_gregorian(year, 1) {
            Ok(found) => found,
            Err(error) => {
                return Err(error);
            },
        };
        let rh_weekday = Self::weekday_from_sunday(rosh_gregorian);

        // Simchat Torah, the day on which the cycle of the year before
        // ends; the first Shabbat after it is Shabbat Bereshit
        let simchat_gregorian = match Self::tishrei_gregorian(year, 23) {
            Ok(found) => found,
            Err(error) => {
                return Err(error);
            },
        };
        let bereshit_shabbat = match Self::first_shabbat_after(simchat_gregorian) {
            Ok(found) => found,
            Err(error) => {
                return Err(error);
            },
        };

        // whole weeks from Shabbat Bereshit to this Shabbat
        let current_gregorian = match DateConverter::hebrew_to_gregorian(date) {
            Ok(found) => found,
            Err(error) => {
                return Err(error);
            },
        };
        let weeks_diff = Self::weeks_between(bereshit_shabbat, current_gregorian);
        if weeks_diff < 0 {
            return Ok(Parsha::HaftarahOnly);
        }
        Ok(Self::get_parsha_index(weeks_diff as usize, is_leap, rh_weekday, year))
    }

    /// The two portions that are read together in week `week`, if the
    /// week is one on which two are.
    pub fn combined_parsha(is_leap: bool, rh_weekday: u32, week: usize) -> (pair: Option<Parsha>)
        ensures
            pair == combined_reading(is_leap, rh_weekday as int, week as int),
    {
        if is_leap {
            None
        } else if week == 21 {
            Some(Parsha::VayakhelPekudei)
        } else if week == 26 {
            Some(Parsha::TazriaMetzora)
        } else if week == 29 {
            Some(Parsha::AchreiMotKedoshim)
        } else if week == 32 {
            Some(Parsha::BeharBechukotai)
        } else if week == 41 {
            Some(Parsha::MatotMasei)
        } else if week == 50 {
            Some(Parsha::NitzavimVayeilech)
        } else {
            None
        }
    }

    /// The reading of week `week` after Shabbat Bereshit, in a year that
    /// is common or leap and begins on the weekday `rh_weekday`: two
    /// portions together on the weeks that have them, and otherwise the
    /// portion at the place of the week in the cycle.
    pub fn get_parsha_index(
        week: usize,
        is_leap: bool,
        rh_weekday: u32,
        year: i32,
    ) -> (reading: Parsha)
        ensures
            reading == reading_in_week(is_leap, rh_weekday as int, week as int),
    {
        if let Some(pair) = Self::combined_parsha(is_leap, rh_weekday, week) {
            return pair;
        }
        let sequence: Vec<Parsha> = vec![
            Parsha::Bereshit,
            Parsha::Noach,
            Parsha::LechLecha,
            Parsha::Vayera,
            Parsha::ChayeiSara,
            Parsha::Toldot,
            Parsha::Vayetzei,
            Parsha::Vayishlach,
            Parsha::Vayeshev,
            Parsha::Miketz,
            Parsha::Vayigash,
            Parsha::Vayechi,
            Parsha::Shemot,
            Parsha::Vaera,
            Parsha::Bo,
            Parsha::Beshalach,
            Parsha::Yitro,
            Parsha::Mishpatim,
            Parsha::Terumah,
            Parsha::Tetzaveh,
            Parsha::KiTisa,
            Parsha::Vayakhel,
            Parsha::Pekudei,
            Parsha::Vayikra,
            Parsha::Tzav,
            Parsha::Shemini,
            Parsha::Tazria,
            Parsha::Metzora,
            Parsha::AchreiMot,
            Parsha::Kedoshim,
            Parsha::Emor,
            Parsha::Behar,
            Parsha::Bechukotai,
            Parsha::Bamidbar,
            Parsha::Nasso,
            Parsha::Behaalotecha,
            Parsha::Shelach,
            Parsha::Korach,
            Parsha::Chukat,
            Parsha::Balak,
            Parsha::Pinchas,
            Parsha::Matot,
            Parsha::Masei,
            Parsha::Devarim,
            Parsha::Vaetchanan,
            Parsha::Eikev,
            Parsha::Reeh,
            Parsha::Shoftim,
            Parsha::KiTeitzei,
            Parsha::KiTavo,
            Parsha::Nitzavim,
            Parsha::Vayeilech,
            Parsha::HaAzinu,
        ];
        assert(sequence@ =~= standard_sequence());
        let adjusted = Self::adjust_for_combined_parshiot(week, is_leap, rh_weekday, year);
        if adjusted < sequence.len() {
            sequence[adjusted]
        } else if adjusted == sequence.len() {
            Parsha::VezotHaberacha
        } else {
            Parsha::HaftarahOnly
        }
    }

    /// The place in the cycle that the table of adjustments gives for
    /// week `week`: the week itself, and one less on the six weeks of a
    /// common year on which two portions are read together. The weekday
    /// on which the year begins and the year do not change it.
    #[allow(unused_variables)]
    pub fn adjust_for_combined_parshiot(
        week: usize,
        is_leap: bool,
        rh_weekday: u32,
        year: i32,
    ) -> (adjusted: usize)
        ensures
            adjusted == adjusted_week(week as int, is_leap),
    {
        if is_leap {
            week
        } else if week == 21 || week == 26 || week == 29 || week == 32 || week == 41 {
            week - 1
        } else if week == 50 {
            49
        } else {
            week
        }
    }
}

} // verus!
