//! The annual cycle of observances.

use vstd::prelude::*;
use crate::calendar::{
    days_before_position, is_deficient_year, lemma_date_in_month,
    lemma_days_before_position_increasing, DateConverter, HebrewDate, HebrewMonth, YearType,
};
use crate::molad::{lemma_year_length, months_in_year, year_supported};
use crate::CalendarError;

verus! {

/// An observance of the Jewish year. Each day of the counting of the
/// Omer and each day of Chanukah is an observance of its own.
#[derive(Debug, Clone, Copy, PartialEq, Eq, Structural)]
pub enum Holiday {
    // Rosh Hashanah
    RoshHashanahDay1,
    RoshHashanahDay2,
    // Yom Kippur
    YomKippur,
    // Sukkot
    SukkotDay1,
    SukkotDay2,
    SukkotCholHamoedDay1,
    SukkotCholHamoedDay2,
    SukkotCholHamoedDay3,
    SukkotCholHamoedDay4,
    SukkotCholHamoedDay5,
    HoshanaRabbah,
    SheminiAtzeret,
    SimchatTorah,
    // Chanukah
    ChanukahDay1,
    ChanukahDay2,
    ChanukahDay3,
    ChanukahDay4,
    ChanukahDay5,
    ChanukahDay6,
    ChanukahDay7,
    ChanukahDay8,
    // Tu B'Shevat
    TuBiShevat,
    // Purim
    TaanitEsther,
    Purim,
    ShushanPurim,
    // Pesach
    PesachDay1,
    PesachDay2,
    PesachCholHamoedDay1,
    PesachCholHamoedDay2,
    PesachCholHamoedDay3,
    PesachCholHamoedDay4,
    PesachDay7,
    PesachDay8,
    // The counting of the Omer
    OmerDay1,
    OmerDay2,
    OmerDay3,
    OmerDay4,
    OmerDay5,
    OmerDay6,
    OmerDay7,
    OmerDay8,
    OmerDay9,
    OmerDay10,
    OmerDay11,
    OmerDay12,
    OmerDay13,
    OmerDay14,
    OmerDay15,
    OmerDay16,
    OmerDay17,
    OmerDay18,
    OmerDay19,
    OmerDay20,
    OmerDay21,
    OmerDay22,
    OmerDay23,
    OmerDay24,
    OmerDay25,
    OmerDay26,
    OmerDay27,
    OmerDay28,
    OmerDay29,
    OmerDay30,
    OmerDay31,
    OmerDay32,
    OmerDay33,
    OmerDay34,
    OmerDay35,
    OmerDay36,
    OmerDay37,
    OmerDay38,
    OmerDay39,
    OmerDay40,
    OmerDay41,
    OmerDay42,
    OmerDay43,
    OmerDay44,
    OmerDay45,
    OmerDay46,
    OmerDay47,
    OmerDay48,
    OmerDay49,
    LagBaOmer,
    // Modern Israeli holidays
    YomHaShoah,
    YomHaZikaron,
    YomHaAtzmaut,
    YomYerushalayim,
    // Shavuot
    ShavuotDay1,
    ShavuotDay2,
    // The Three Weeks
    ShivaAsarBTammuz,
    TishaBAv,
    TuBAv,
    // The new month
    RoshChodesh,
}

impl Holiday {
    /// The English name of the observance.
    pub open spec fn name_text(self) -> &'static str {
        match self {
            Holiday::RoshHashanahDay1 => "Rosh Hashanah (Day 1)",
            Holiday::RoshHashanahDay2 => "Rosh Hashanah (Day 2)",
            Holiday::YomKippur => "Yom Kippur",
            Holiday::SukkotDay1 => "Sukkot (Day 1)",
            Holiday::SukkotDay2 => "Sukkot (Day 2)",
            Holiday::SukkotCholHamoedDay1 => "Sukkot (Chol HaMoed Day 1)",
            Holiday::SukkotCholHamoedDay2 => "Sukkot (Chol HaMoed Day 2)",
            Holiday::SukkotCholHamoedDay3 => "Sukkot (Chol HaMoed Day 3)",
            Holiday::SukkotCholHamoedDay4 => "Sukkot (Chol HaMoed Day 4)",
            Holiday::SukkotCholHamoedDay5 => "Sukkot (Chol HaMoed Day 5)",
            Holiday::HoshanaRabbah => "Hoshana Rabbah",
            Holiday::SheminiAtzeret => "Shemini Atzeret",
            Holiday::SimchatTorah => "Simchat Torah",
            Holiday::ChanukahDay1 => "Chanukah (Day 1 - 1 Candle)",
            Holiday::ChanukahDay2 => "Chanukah (Day 2 - 2 Candles)",
            Holiday::ChanukahDay3 => "Chanukah (Day 3 - 3 Candles)",
            Holiday::ChanukahDay4 => "Chanukah (Day 4 - 4 Candles)",
            Holiday::ChanukahDay5 => "Chanukah (Day 5 - 5 Candles)",
            Holiday::ChanukahDay6 => "Chanukah (Day 6 - 6 Candles)",
            Holiday::ChanukahDay7 => "Chanukah (Day 7 - 7 Candles)",
            Holiday::ChanukahDay8 => "Chanukah (Day 8 - 8 Candles)",
            Holiday::TuBiShevat => "Tu B'Shevat",
            Holiday::TaanitEsther => "Ta'anit Esther",
            Holiday::Purim => "Purim",
            Holiday::ShushanPurim => "Shushan Purim",
            Holiday::PesachDay1 => "Pesach (Day 1)",
            Holiday::PesachDay2 => "Pesach (Day 2)",
            Holiday::PesachCholHamoedDay1 => "Pesach (Chol HaMoed Day 1)",
            Holiday::PesachCholHamoedDay2 => "Pesach (Chol HaMoed Day 2)",
            Holiday::PesachCholHamoedDay3 => "Pesach (Chol HaMoed Day 3)",
            Holiday::PesachCholHamoedDay4 => "Pesach (Chol HaMoed Day 4)",
            Holiday::PesachDay7 => "Pesach (Day 7)",
            Holiday::PesachDay8 => "Pesach (Day 8)",
            Holiday::OmerDay1 => "Omer Day 1",
            Holiday::OmerDay2 => "Omer Day 2",
            Holiday::OmerDay3 => "Omer Day 3",
            Holiday::OmerDay4 => "Omer Day 4",
            Holiday::OmerDay5 => "Omer Day 5",
            Holiday::OmerDay6 => "Omer Day 6",
            Holiday::OmerDay7 => "Omer Day 7",
            Holiday::OmerDay8 => "Omer Day 8",
            Holiday::OmerDay9 => "Omer Day 9",
            Holiday::OmerDay10 => "Omer Day 10",
            Holiday::OmerDay11 => "Omer Day 11",
            Holiday::OmerDay12 => "Omer Day 12",
            Holiday::OmerDay13 => "Omer Day 13",
            Holiday::OmerDay14 => "Omer Day 14",
            Holiday::OmerDay15 => "Omer Day 15",
            Holiday::OmerDay16 => "Omer Day 16",
            Holiday::OmerDay17 => "Omer Day 17",
            Holiday::OmerDay18 => "Omer Day 18",
            Holiday::OmerDay19 => "Omer Day 19",
            Holiday::OmerDay20 => "Omer Day 20",
            Holiday::OmerDay21 => "Omer Day 21",
            Holiday::OmerDay22 => "Omer Day 22",
            Holiday::OmerDay23 => "Omer Day 23",
            Holiday::OmerDay24 => "Omer Day 24",
            Holiday::OmerDay25 => "Omer Day 25",
            Holiday::OmerDay26 => "Omer Day 26",
            Holiday::OmerDay27 => "Omer Day 27",
            Holiday::OmerDay28 => "Omer Day 28",
            Holiday::OmerDay29 => "Omer Day 29",
            Holiday::OmerDay30 => "Omer Day 30",
            Holiday::OmerDay31 => "Omer Day 31",
            Holiday::OmerDay32 => "Omer Day 32",
            Holiday::OmerDay33 => "Omer Day 33 (Lag BaOmer)",
            Holiday::OmerDay34 => "Omer Day 34",
            Holiday::OmerDay35 => "Omer Day 35",
            Holiday::OmerDay36 => "Omer Day 36",
            Holiday::OmerDay37 => "Omer Day 37",
            Holiday::OmerDay38 => "Omer Day 38",
            Holiday::OmerDay39 => "Omer Day 39",
            Holiday::OmerDay40 => "Omer Day 40",
            Holiday::OmerDay41 => "Omer Day 41",
            Holiday::OmerDay42 => "Omer Day 42",
            Holiday::OmerDay43 => "Omer Day 43",
            Holiday::OmerDay44 => "Omer Day 44",
            Holiday::OmerDay45 => "Omer Day 45",
            Holiday::OmerDay46 => "Omer Day 46",
            Holiday::OmerDay47 => "Omer Day 47",
            Holiday::OmerDay48 => "Omer Day 48",
            Holiday::OmerDay49 => "Omer Day 49",
            Holiday::LagBaOmer => "Lag BaOmer",
            Holiday::YomHaShoah => "Yom HaShoah",
            Holiday::YomHaZikaron => "Yom HaZikaron",
            Holiday::YomHaAtzmaut => "Yom HaAtzmaut",
            Holiday::YomYerushalayim => "Yom Yerushalayim",
            Holiday::ShavuotDay1 => "Shavuot (Day 1)",
            Holiday::ShavuotDay2 => "Shavuot (Day 2)",
            Holiday::ShivaAsarBTammuz => "Shiva Asar B'Tammuz",
            Holiday::TishaBAv => "Tisha B'Av",
            Holiday::TuBAv => "Tu B'Av",
            Holiday::RoshChodesh => "Rosh Chodesh",
        }
    }

    /// Which day of Chanukah this is, from 1 to 8, or 0 if it is none.
    pub open spec fn chanukah_number(self) -> int {
        match self {
            Holiday::ChanukahDay1 => 1,
            Holiday::ChanukahDay2 => 2,
            Holiday::ChanukahDay3 => 3,
            Holiday::ChanukahDay4 => 4,
            Holiday::ChanukahDay5 => 5,
            Holiday::ChanukahDay6 => 6,
            Holiday::ChanukahDay7 => 7,
            Holiday::ChanukahDay8 => 8,
            _ => 0,
        }
    }

    /// Whether work is restricted on the day as on a festival.
    pub open spec fn yom_tov(self) -> bool {
        ||| self == Holiday::RoshHashanahDay1
        ||| self == Holiday::RoshHashanahDay2
        ||| self == Holiday::YomKippur
        ||| self == Holiday::SukkotDay1
        ||| self == Holiday::SukkotDay2
        ||| self == Holiday::SheminiAtzeret
        ||| self == Holiday::SimchatTorah
        ||| self == Holiday::PesachDay1
        ||| self == Holiday::PesachDay2
        ||| self == Holiday::PesachDay7
        ||| self == Holiday::PesachDay8
        ||| self == Holiday::ShavuotDay1
        ||| self == Holiday::ShavuotDay2
    }

    /// Whether candles are lit for the day: on the festivals and on each
    /// day of Chanukah.
    pub open spec fn candles(self) -> bool {
        self.yom_tov() || self.chanukah_number() > 0
    }

    /// Whether the day is a fast.
    pub open spec fn fast_day(self) -> bool {
        ||| self == Holiday::YomKippur
        ||| self == Holiday::TaanitEsther
        ||| self == Holiday::TishaBAv
        ||| self == Holiday::ShivaAsarBTammuz
    }

    /// The English name of the observance.
    pub fn name(&self) -> (name: &'static str)
        ensures
            name == self.name_text(),
    {
        match self {
            Holiday::RoshHashanahDay1 => "Rosh Hashanah (Day 1)",
            Holiday::RoshHashanahDay2 => "Rosh Hashanah (Day 2)",
            Holiday::YomKippur => "Yom Kippur",
            Holiday::SukkotDay1 => "Sukkot (Day 1)",
            Holiday::SukkotDay2 => "Sukkot (Day 2)",
            Holiday::SukkotCholHamoedDay1 => "Sukkot (Chol HaMoed Day 1)",
            Holiday::SukkotCholHamoedDay2 => "Sukkot (Chol HaMoed Day 2)",
            Holiday::SukkotCholHamoedDay3 => "Sukkot (Chol HaMoed Day 3)",
            Holiday::SukkotCholHamoedDay4 => "Sukkot (Chol HaMoed Day 4)",
            Holiday::SukkotCholHamoedDay5 => "Sukkot (Chol HaMoed Day 5)",
            Holiday::HoshanaRabbah => "Hoshana Rabbah",
            Holiday::SheminiAtzeret => "Shemini Atzeret",
            Holiday::SimchatTorah => "Simchat Torah",
            Holiday::ChanukahDay1 => "Chanukah (Day 1 - 1 Candle)",
            Holiday::ChanukahDay2 => "Chanukah (Day 2 - 2 Candles)",
            Holiday::ChanukahDay3 => "Chanukah (Day 3 - 3 Candles)",
            Holiday::ChanukahDay4 => "Chanukah (Day 4 - 4 Candles)",
            Holiday::ChanukahDay5 => "Chanukah (Day 5 - 5 Candles)",
            Holiday::ChanukahDay6 => "Chanukah (Day 6 - 6 Candles)",
            Holiday::ChanukahDay7 => "Chanukah (Day 7 - 7 Candles)",
            Holiday::ChanukahDay8 => "Chanukah (Day 8 - 8 Candles)",
            Holiday::TuBiShevat => "Tu B'Shevat",
            Holiday::TaanitEsther => "Ta'anit Esther",
            Holiday::Purim => "Purim",
            Holiday::ShushanPurim => "Shushan Purim",
            Holiday::PesachDay1 => "Pesach (Day 1)",
            Holiday::PesachDay2 => "Pesach (Day 2)",
            Holiday::PesachCholHamoedDay1 => "Pesach (Chol HaMoed Day 1)",
            Holiday::PesachCholHamoedDay2 => "Pesach (Chol HaMoed Day 2)",
            Holiday::PesachCholHamoedDay3 => "Pesach (Chol HaMoed Day 3)",
            Holiday::PesachCholHamoedDay4 => "Pesach (Chol HaMoed Day 4)",
            Holiday::PesachDay7 => "Pesach (Day 7)",
            Holiday::PesachDay8 => "Pesach (Day 8)",
            Holiday::OmerDay1 => "Omer Day 1",
            Holiday::OmerDay2 => "Omer Day 2",
            Holiday::OmerDay3 => "Omer Day 3",
            Holiday::OmerDay4 => "Omer Day 4",
            Holiday::OmerDay5 => "Omer Day 5",
            Holiday::OmerDay6 => "Omer Day 6",
            Holiday::OmerDay7 => "Omer Day 7",
            Holiday::OmerDay8 => "Omer Day 8",
            Holiday::OmerDay9 => "Omer Day 9",
            Holiday::OmerDay10 => "Omer Day 10",
            Holiday::OmerDay11 => "Omer Day 11",
            Holiday::OmerDay12 => "Omer Day 12",
            Holiday::OmerDay13 => "Omer Day 13",
            Holiday::OmerDay14 => "Omer Day 14",
            Holiday::OmerDay15 => "Omer Day 15",
            Holiday::OmerDay16 => "Omer Day 16",
            Holiday::OmerDay17 => "Omer Day 17",
            Holiday::OmerDay18 => "Omer Day 18",
            Holiday::OmerDay19 => "Omer Day 19",
            Holiday::OmerDay20 => "Omer Day 20",
            Holiday::OmerDay21 => "Omer Day 21",
            Holiday::OmerDay22 => "Omer Day 22",
            Holiday::OmerDay23 => "Omer Day 23",
            Holiday::OmerDay24 => "Omer Day 24",
            Holiday::OmerDay25 => "Omer Day 25",
            Holiday::OmerDay26 => "Omer Day 26",
            Holiday::OmerDay27 => "Omer Day 27",
            Holiday::OmerDay28 => "Omer Day 28",
            Holiday::OmerDay29 => "Omer Day 29",
            Holiday::OmerDay30 => "Omer Day 30",
            Holiday::OmerDay31 => "Omer Day 31",
            Holiday::OmerDay32 => "Omer Day 32",
            Holiday::OmerDay33 => "Omer Day 33 (Lag BaOmer)",
            Holiday::OmerDay34 => "Omer Day 34",
            Holiday::OmerDay35 => "Omer Day 35",
            Holiday::OmerDay36 => "Omer Day 36",
            Holiday::OmerDay37 => "Omer Day 37",
            Holiday::OmerDay38 => "Omer Day 38",
            Holiday::OmerDay39 => "Omer Day 39",
            Holiday::OmerDay40 => "Omer Day 40",
            Holiday::OmerDay41 => "Omer Day 41",
            Holiday::OmerDay42 => "Omer Day 42",
            Holiday::OmerDay43 => "Omer Day 43",
            Holiday::OmerDay44 => "Omer Day 44",
            Holiday::OmerDay45 => "Omer Day 45",
            Holiday::OmerDay46 => "Omer Day 46",
            Holiday::OmerDay47 => "Omer Day 47",
            Holiday::OmerDay48 => "Omer Day 48",
            Holiday::OmerDay49 => "Omer Day 49",
            Holiday::LagBaOmer => "Lag BaOmer",
            Holiday::YomHaShoah => "Yom HaShoah",
            Holiday::YomHaZikaron => "Yom HaZikaron",
            Holiday::YomHaAtzmaut => "Yom HaAtzmaut",
            Holiday::YomYerushalayim => "Yom Yerushalayim",
            Holiday::ShavuotDay1 => "Shavuot (Day 1)",
            Holiday::ShavuotDay2 => "Shavuot (Day 2)",
            Holiday::ShivaAsarBTammuz => "Shiva Asar B'Tammuz",
            Holiday::TishaBAv => "Tisha B'Av",
            Holiday::TuBAv => "Tu B'Av",
            Holiday::RoshChodesh => "Rosh Chodesh",
        }
    }

    /// Whether candles are lit for the day.
    pub fn requires_candles(&self) -> (candles: bool)
        ensures
            candles == self.candles(),
    {
        match self {
            Holiday::RoshHashanahDay1
            | Holiday::RoshHashanahDay2
            | Holiday::YomKippur
            | Holiday::SukkotDay1
            | Holiday::SukkotDay2
            | Holiday::SheminiAtzeret
            | Holiday::SimchatTorah
            | Holiday::PesachDay1
            | Holiday::PesachDay2
            | Holiday::PesachDay7
            | Holiday::PesachDay8
            | Holiday::ShavuotDay1
            | Holiday::ShavuotDay2
            | Holiday::ChanukahDay1
            | Holiday::ChanukahDay2
            | Holiday::ChanukahDay3
            | Holiday::ChanukahDay4
            | Holiday::ChanukahDay5
            | Holiday::ChanukahDay6
            | Holiday::ChanukahDay7
            | Holiday::ChanukahDay8 => true,
            _ => false,
        }
    }

    /// Whether this is a Yom Tov, a festival on which work is restricted.
    pub fn is_yom_tov(&self) -> (yom_tov: bool)
        ensures
            yom_tov == self.yom_tov(),
    {
        match self {
            Holiday::RoshHashanahDay1
            | Holiday::RoshHashanahDay2
            | Holiday::YomKippur
            | Holiday::SukkotDay1
            | Holiday::SukkotDay2
            | Holiday::SheminiAtzeret
            | Holiday::SimchatTorah
            | Holiday::PesachDay1
            | Holiday::PesachDay2
            | Holiday::PesachDay7
            | Holiday::PesachDay8
            | Holiday::ShavuotDay1
            | Holiday::ShavuotDay2 => true,
            _ => false,
        }
    }

    /// Whether this is a fast day.
    pub fn is_fast_day(&self) -> (fast: bool)
        ensures
            fast == self.fast_day(),
    {
        match self {
            Holiday::YomKippur
            | Holiday::TaanitEsther
            | Holiday::TishaBAv
            | Holiday::ShivaAsarBTammuz => true,
            _ => false,
        }
    }
}

/// The festival or fast that falls on the day `day` of `month`, apart
/// from Chanukah, the Omer and the new month.
pub open spec fn major_holiday(month: HebrewMonth, day: int) -> Option<Holiday> {
    match month {
        HebrewMonth::Tishrei => if day == 1 {
            Some(Holiday::RoshHashanahDay1)
        } else if day == 2 {
            Some(Holiday::RoshHashanahDay2)
        } else if day == 10 {
            Some(Holiday::YomKippur)
        } else if day == 15 {
            Some(Holiday::SukkotDay1)
        } else if day == 16 {
            Some(Holiday::SukkotDay2)
        } else if day == 17 {
            Some(Holiday::SukkotCholHamoedDay1)
        } else if day == 18 {
            Some(Holiday::SukkotCholHamoedDay2)
        } else if day == 19 {
            Some(Holiday::SukkotCholHamoedDay3)
        } else if day == 20 {
            Some(Holiday::SukkotCholHamoedDay4)
        } else if day == 21 {
            Some(Holiday::HoshanaRabbah)
        } else if day == 22 {
            Some(Holiday::SheminiAtzeret)
        } else if day == 23 {
            Some(Holiday::SimchatTorah)
        } else {
            None
        },
        HebrewMonth::Shevat => if day == 15 {
            Some(Holiday::TuBiShevat)
        } else {
            None
        },
        HebrewMonth::Adar => if day == 13 {
            Some(Holiday::TaanitEsther)
        } else if day == 14 {
            Some(Holiday::Purim)
        } else if day == 15 {
            Some(Holiday::ShushanPurim)
        } else {
            None
        },
        HebrewMonth::Nisan => if day == 15 {
            Some(Holiday::PesachDay1)
        } else if day == 16 {
            Some(Holiday::PesachDay2)
        } else if day == 17 {
            Some(Holiday::PesachCholHamoedDay1)
        } else if day == 18 {
            Some(Holiday::PesachCholHamoedDay2)
        } else if day == 19 {
            Some(Holiday::PesachCholHamoedDay3)
        } else if day == 20 {
            Some(Holiday::PesachCholHamoedDay4)
        } else if day == 21 {
            Some(Holiday::PesachDay7)
        } else if day == 22 {
            Some(Holiday::PesachDay8)
        } else {
            None
        },
        HebrewMonth::Sivan => if day == 6 {
            Some(Holiday::ShavuotDay1)
        } else if day == 7 {
            Some(Holiday::ShavuotDay2)
        } else {
            None
        },
        HebrewMonth::Tammuz => if day == 17 {
            Some(Holiday::ShivaAsarBTammuz)
        } else {
            None
        },
        HebrewMonth::Av => if day == 9 {
            Some(Holiday::TishaBAv)
        } else if day == 15 {
            Some(Holiday::TuBAv)
        } else {
            None
        },
        _ => None,
    }
}

/// Which day of Chanukah the date is, counted from 25 Kislev on into
/// Teves, or 0 if it is none. Chanukah reaches the second of Teves, and
/// the third where Kislev has only 29 days.
pub open spec fn chanukah_count(date: HebrewDate) -> int {
    let short = is_deficient_year(date.year as int);
    if date.month == HebrewMonth::Kislev && date.day >= 25 {
        date.day - 24
    } else if date.month == HebrewMonth::Teves && (date.day <= 2 || (date.day <= 3 && short)) {
        (if short {
            5int
        } else {
            6int
        }) + date.day
    } else {
        0
    }
}

/// Which day of the counting of the Omer the day `day` of `month` is,
/// counted from 16 Nisan, or 0 if the counting does not reach it.
pub open spec fn omer_count(month: HebrewMonth, day: int) -> int {
    if month == HebrewMonth::Nisan && day >= 16 {
        day - 15
    } else if month == HebrewMonth::Iyar {
        15 + day
    } else if month == HebrewMonth::Sivan && day <= 5 {
        44 + day
    } else {
        0
    }
}

/// The day of Chanukah with number `count`, if it is one of the eight.
pub open spec fn chanukah_holiday(count: int) -> Option<Holiday> {
    if count == 1 {
        Some(Holiday::ChanukahDay1)
    } else if count == 2 {
        Some(Holiday::ChanukahDay2)
    } else if count == 3 {
        Some(Holiday::ChanukahDay3)
    } else if count == 4 {
        Some(Holiday::ChanukahDay4)
    } else if count == 5 {
        Some(Holiday::ChanukahDay5)
    } else if count == 6 {
        Some(Holiday::ChanukahDay6)
    } else if count == 7 {
        Some(Holiday::ChanukahDay7)
    } else if count == 8 {
        Some(Holiday::ChanukahDay8)
    } else {
        None
    }
}

/// What an observance that may be there adds to the list of a day.
pub open spec fn listed(holiday: Option<Holiday>) -> Seq<Holiday> {
    match holiday {
        Some(found) => seq![found],
        None => Seq::empty(),
    }
}

/// The day of the Omer with number `count`, if the counting has such a
/// day.
pub open spec fn omer_holiday(count: int) -> Option<Holiday> {
    if count == 1 {
        Some(Holiday::OmerDay1)
    } else if count == 2 {
        Some(Holiday::OmerDay2)
    } else if count == 3 {
        Some(Holiday::OmerDay3)
    } else if count == 4 {
        Some(Holiday::OmerDay4)
    } else if count == 5 {
        Some(Holiday::OmerDay5)
    } else if count == 6 {
        Some(Holiday::OmerDay6)
    } else if count == 7 {
        Some(Holiday::OmerDay7)
    } else if count == 8 {
        Some(Holiday::OmerDay8)
    } else if count == 9 {
        Some(Holiday::OmerDay9)
    } else if count == 10 {
        Some(Holiday::OmerDay10)
    } else if count == 11 {
        Some(Holiday::OmerDay11)
    } else if count == 12 {
        Some(Holiday::OmerDay12)
    } else if count == 13 {
        Some(Holiday::OmerDay13)
    } else if count == 14 {
        Some(Holiday::OmerDay14)
    } else if count == 15 {
        Some(Holiday::OmerDay15)
    } else if count == 16 {
        Some(Holiday::OmerDay16)
    } else if count == 17 {
        Some(Holiday::OmerDay17)
    } else if count == 18 {
        Some(Holiday::OmerDay18)
    } else if count == 19 {
        Some(Holiday::OmerDay19)
    } else if count == 20 {
        Some(Holiday::OmerDay20)
    } else if count == 21 {
        Some(Holiday::OmerDay21)
    } else if count == 22 {
        Some(Holiday::OmerDay22)
    } else if count == 23 {
        Some(Holiday::OmerDay23)
    } else if count == 24 {
        Some(Holiday::OmerDay24)
    } else if count == 25 {
        Some(Holiday::OmerDay25)
    } else if count == 26 {
        Some(Holiday::OmerDay26)
    } else if count == 27 {
        Some(Holiday::OmerDay27)
    } else if count == 28 {
        Some(Holiday::OmerDay28)
    } else if count == 29 {
        Some(Holiday::OmerDay29)
    } else if count == 30 {
        Some(Holiday::OmerDay30)
    } else if count == 31 {
        Some(Holiday::OmerDay31)
    } else if count == 32 {
        Some(Holiday::OmerDay32)
    } else if count == 33 {
        Some(Holiday::OmerDay33)
    } else if count == 34 {
        Some(Holiday::OmerDay34)
    } else if count == 35 {
        Some(Holiday::OmerDay35)
    } else if count == 36 {
        Some(Holiday::OmerDay36)
    } else if count == 37 {
        Some(Holiday::OmerDay37)
    } else if count == 38 {
        Some(Holiday::OmerDay38)
    } else if count == 39 {
        Some(Holiday::OmerDay39)
    } else if count == 40 {
        Some(Holiday::OmerDay40)
    } else if count == 41 {
        Some(Holiday::OmerDay41)
    } else if count == 42 {
        Some(Holiday::OmerDay42)
    } else if count == 43 {
        Some(Holiday::OmerDay43)
    } else if count == 44 {
        Some(Holiday::OmerDay44)
    } else if count == 45 {
        Some(Holiday::OmerDay45)
    } else if count == 46 {
        Some(Holiday::OmerDay46)
    } else if count == 47 {
        Some(Holiday::OmerDay47)
    } else if count == 48 {
        Some(Holiday::OmerDay48)
    } else if count == 49 {
        Some(Holiday::OmerDay49)
    } else {
        None
    }
}

/// The observances of `date` in order: the festival or fast, the day of
/// Chanukah, the day of the Omer, and the new month on the first and the
/// thirtieth of a month.
pub open spec fn holidays_on(date: HebrewDate) -> Seq<Holiday> {
    listed(major_holiday(date.month, date.day as int)) + listed(
        chanukah_holiday(chanukah_count(date)),
    ) + listed(omer_holiday(omer_count(date.month, date.day as int))) + (if date.day == 1
        || date.day == 30 {
        seq![Holiday::RoshChodesh]
    } else {
        Seq::empty()
    })
}

/// The rules of the annual cycle.
pub struct HolidayCalculator;

impl HolidayCalculator {
    /// All the observances of a Hebrew date.
    pub fn get_holidays(date: &HebrewDate) -> (holidays: Result<Vec<Holiday>, CalendarError>)
        requires
            year_supported(date.year as int),
        ensures
            holidays matches Ok(list) && list@ == holidays_on(*date),
    {
        let mut holidays: Vec<Holiday> = Vec::new();
        if let Some(holiday) = Self::get_major_holiday(date) {
            holidays.push(holiday);
        }
        if let Some(chanukah) = Self::get_chanukah_day(date) {
            holidays.push(chanukah);
        }
        if let Some(omer) = Self::get_omer_day(date) {
            holidays.push(omer);
        }
        if date.day == 1 || date.day == 30 {
            holidays.push(Holiday::RoshChodesh);
        }
        assert(holidays@ =~= holidays_on(*date));
        Ok(holidays)
    }

    /// The festival or fast of the date, if it has one.
    pub fn get_major_holiday(date: &HebrewDate) -> (holiday: Option<Holiday>)
        ensures
            holiday == major_holiday(date.month, date.day as int),
    {
        let day = date.day;
        match date.month {
            HebrewMonth::Tishrei => {
                if day == 1 {
                    Some(Holiday::RoshHashanahDay1)
                } else if day == 2 {
                    Some(Holiday::RoshHashanahDay2)
                } else if day == 10 {
                    Some(Holiday::YomKippur)
                } else if day == 15 {
                    Some(Holiday::SukkotDay1)
                } else if day == 16 {
                    Some(Holiday::SukkotDay2)
                } else if 17 <= day && day <= 20 {
                    Some(
                        if day == 17 {
                            Holiday::SukkotCholHamoedDay1
                        } else if day == 18 {
                            Holiday::SukkotCholHamoedDay2
                        } else if day == 19 {
                            Holiday::SukkotCholHamoedDay3
                        } else {
                            Holiday::SukkotCholHamoedDay4
                        },
                    )
                } else if day == 21 {
                    Some(Holiday::HoshanaRabbah)
                } else if day == 22 {
                    Some(Holiday::SheminiAtzeret)
                } else if day == 23 {
                    Some(Holiday::SimchatTorah)
                } else {
                    None
                }
            },
            HebrewMonth::Cheshvan => None,
            HebrewMonth::Kislev => None,
            HebrewMonth::Teves => None,
            HebrewMonth::Shevat => {
                if day == 15 {
                    Some(Holiday::TuBiShevat)
                } else {
                    None
                }
            },
            HebrewMonth::Adar => {
                if day == 13 {
                    Some(Holiday::TaanitEsther)
                } else if day == 14 {
                    Some(Holiday::Purim)
                } else if day == 15 {
                    Some(Holiday::ShushanPurim)
                } else {
                    None
                }
            },
            HebrewMonth::AdarI => None,
            HebrewMonth::Nisan => {
                if day == 15 {
                    Some(Holiday::PesachDay1)
                } else if day == 16 {
                    Some(Holiday::PesachDay2)
                } else if 17 <= day && day <= 20 {
                    Some(
                        if day == 17 {
                            Holiday::PesachCholHamoedDay1
                        } else if day == 18 {
                            Holiday::PesachCholHamoedDay2
                        } else if day == 19 {
                            Holiday::PesachCholHamoedDay3
                        } else {
                            Holiday::PesachCholHamoedDay4
                        },
                    )
                } else if day == 21 {
                    Some(Holiday::PesachDay7)
                } else if day == 22 {
                    Some(Holiday::PesachDay8)
                } else {
                    None
                }
            },
            HebrewMonth::Iyar => None,
            HebrewMonth::Sivan => {
                if day == 6 {
                    Some(Holiday::ShavuotDay1)
                } else if day == 7 {
                    Some(Holiday::ShavuotDay2)
                } else {
                    None
                }
            },
            HebrewMonth::Tammuz => {
                if day == 17 {
                    Some(Holiday::ShivaAsarBTammuz)
                } else {
                    None
                }
            },
            HebrewMonth::Av => {
                if day == 9 {
                    Some(Holiday::TishaBAv)
                } else if day == 15 {
                    Some(Holiday::TuBAv)
                } else {
                    None
                }
            },
            HebrewMonth::Elul => None,
        }
    }

    /// The day of Chanukah of the date, if it is one.
    pub fn get_chanukah_day(date: &HebrewDate) -> (holiday: Option<Holiday>)
        requires
            year_supported(date.year as int),
        ensures
            holiday == chanukah_holiday(chanukah_count(*date)),
    {
        let in_chanukah = match date.month {
            HebrewMonth::Kislev => date.day >= 25,
            HebrewMonth::Teves => date.day <= 2 || (date.day <= 3 && Self::is_short_kislev(
                date.year,
            )),
            _ => false,
        };
        if !in_chanukah {
            return None;
        }
        let day: u16 = match date.month {
            HebrewMonth::Kislev => (date.day - 24) as u16,
            _ => {
                let kislev_days: u16 = if Self::is_short_kislev(date.year) {
                    29
                } else {
                    30
                };
                kislev_days - 24 + date.day as u16
            },
        };
        if day == 1 {
            Some(Holiday::ChanukahDay1)
        } else if day == 2 {
            Some(Holiday::ChanukahDay2)
        } else if day == 3 {
            Some(Holiday::ChanukahDay3)
        } else if day == 4 {
            Some(Holiday::ChanukahDay4)
        } else if day == 5 {
            Some(Holiday::ChanukahDay5)
        } else if day == 6 {
            Some(Holiday::ChanukahDay6)
        } else if day == 7 {
            Some(Holiday::ChanukahDay7)
        } else if day == 8 {
            Some(Holiday::ChanukahDay8)
        } else {
            None
        }
    }

    /// Whether Kislev has only 29 days in `year`.
    pub fn is_short_kislev(year: i32) -> (short: bool)
        requires
            year_supported(year as int),
        ensures
            short == is_deficient_year(year as int),
    {
        match DateConverter::hebrew_year_type(year) {
            YearType::DeficientCommon | YearType::DeficientLeap => true,
            _ => false,
        }
    }

    /// The day of the counting of the Omer of the date, if it is one.
    pub fn get_omer_day(date: &HebrewDate) -> (holiday: Option<Holiday>)
        ensures
            holiday == omer_holiday(omer_count(date.month, date.day as int)),
    {
        let day = date.day as u16;
        let omer_day: u16 = match date.month {
            HebrewMonth::Nisan => if day >= 16 {
                day - 15
            } else {
                0
            },
            HebrewMonth::Iyar => 15 + day,
            HebrewMonth::Sivan => if day <= 5 {
                44 + day
            } else {
                0
            },
            _ => 0,
        };
        if omer_day == 0 || omer_day > 49 {
            return None;
        }
        match omer_day {
            1 => Some(Holiday::OmerDay1),
            2 => Some(Holiday::OmerDay2),
            3 => Some(Holiday::OmerDay3),
            4 => Some(Holiday::OmerDay4),
            5 => Some(Holiday::OmerDay5),
            6 => Some(Holiday::OmerDay6),
            7 => Some(Holiday::OmerDay7),
            8 => Some(Holiday::OmerDay8),
            9 => Some(Holiday::OmerDay9),
            10 => Some(Holiday::OmerDay10),
            11 => Some(Holiday::OmerDay11),
            12 => Some(Holiday::OmerDay12),
            13 => Some(Holiday::OmerDay13),
            14 => Some(Holiday::OmerDay14),
            15 => Some(Holiday::OmerDay15),
            16 => Some(Holiday::OmerDay16),
            17 => Some(Holiday::OmerDay17),
            18 => Some(Holiday::OmerDay18),
            19 => Some(Holiday::OmerDay19),
            20 => Some(Holiday::OmerDay20),
            21 => Some(Holiday::OmerDay21),
            22 => Some(Holiday::OmerDay22),
            23 => Some(Holiday::OmerDay23),
            24 => Some(Holiday::OmerDay24),
            25 => Some(Holiday::OmerDay25),
            26 => Some(Holiday::OmerDay26),
            27 => Some(Holiday::OmerDay27),
            28 => Some(Holiday::OmerDay28),
            29 => Some(Holiday::OmerDay29),
            30 => Some(Holiday::OmerDay30),
            31 => Some(Holiday::OmerDay31),
            32 => Some(Holiday::OmerDay32),
            33 => Some(Holiday::OmerDay33),
            34 => Some(Holiday::OmerDay34),
            35 => Some(Holiday::OmerDay35),
            36 => Some(Holiday::OmerDay36),
            37 => Some(Holiday::OmerDay37),
            38 => Some(Holiday::OmerDay38),
            39 => Some(Holiday::OmerDay39),
            40 => Some(Holiday::OmerDay40),
            41 => Some(Holiday::OmerDay41),
            42 => Some(Holiday::OmerDay42),
            43 => Some(Holiday::OmerDay43),
            44 => Some(Holiday::OmerDay44),
            45 => Some(Holiday::OmerDay45),
            46 => Some(Holiday::OmerDay46),
            47 => Some(Holiday::OmerDay47),
            48 => Some(Holiday::OmerDay48),
            49 => Some(Holiday::OmerDay49),
            _ => None,
        }
    }
}

/// Chanukah lasts eight days in a row from the twenty-fifth of Kislev:
/// a valid date is the day of Chanukah that its distance from that day
/// says, and no day of Chanukah if it lies before it or eight days or
/// more after it.
pub proof fn lemma_chanukah_is_eight_days(date: HebrewDate)
    requires
        date.is_valid(),
    ensures
        ({
            let first = HebrewDate { year: date.year, month: HebrewMonth::Kislev, day: 25 };
            let distance = date.epoch_day() - first.epoch_day();
            chanukah_count(date) == (if 0 <= distance < 8 {
                distance + 1
            } else {
                0
            })
        }),
{
    let year = date.year as int;
    lemma_year_length(year);
    lemma_date_in_month(date);
    reveal_with_fuel(days_before_position, 4);
    let position = date.position();
    if position > 3 {
        lemma_days_before_position_increasing(year, 4, position);
    }
}

/// The Omer is counted for forty-nine days in a row from the sixteenth
/// of Nisan: a valid date is the day of the counting that its distance
/// from that day says, and no day of it before or after.
pub proof fn lemma_omer_is_forty_nine_days(date: HebrewDate)
    requires
        date.is_valid(),
    ensures
        ({
            let first = HebrewDate { year: date.year, month: HebrewMonth::Nisan, day: 16 };
            let distance = date.epoch_day() - first.epoch_day();
            omer_count(date.month, date.day as int) == (if 0 <= distance < 49 {
                distance + 1
            } else {
                0
            })
        }),
{
    let year = date.year as int;
    lemma_date_in_month(date);
    let nisan = months_in_year(year) - 6;
    let position = date.position();
    assert(days_before_position(year, nisan + 1) == days_before_position(year, nisan) + 30);
    assert(days_before_position(year, nisan + 2) == days_before_position(year, nisan + 1) + 29);
    assert(days_before_position(year, nisan + 3) == days_before_position(year, nisan + 2) + 30);
    if position < nisan {
        lemma_days_before_position_increasing(year, position + 1, nisan);
    }
    if position > nisan + 2 {
        lemma_days_before_position_increasing(year, nisan + 3, position);
    }
}

} // verus!
