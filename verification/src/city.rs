//! Iranian cities of the Zanjan region with their Persian names, and
//! a small table of major Iranian cities.

use vstd::prelude::*;

use crate::strutil::lex_lt;
use crate::strutil::str_eq;

verus! {

/// Iranian cities with their Persian names.
#[derive(Debug, Clone, Copy, PartialEq, Eq, Structural)]
pub enum IranCity {
    Zanjan,
    Abhar,
    Khorramdarreh,
    Gheydar,
    Hidaj,
    Saeenghale,
    Abbar,
    Soltanie,
    Sajas,
    Mahneshan,
    Sahrood,
    Garmab,
    Dandi,
    Zarinrood,
    Nourbahar,
    Karasf,
    Zarinabad,
    Armaghane,
    Chavarzaq,
    Halab,
}

impl IranCity {
    /// The Persian name of the city.
    pub open spec fn spec_persian_name(self) -> Seq<char> {
        match self {
            IranCity::Zanjan => "زنجان"@,
            IranCity::Abhar => "ابهر"@,
            IranCity::Khorramdarreh => "خرمدره"@,
            IranCity::Gheydar => "قیدار"@,
            IranCity::Hidaj => "هیدج"@,
            IranCity::Saeenghale => "صاعین قلعه"@,
            IranCity::Abbar => "آب بر"@,
            IranCity::Soltanie => "سلطانیه"@,
            IranCity::Sajas => "سجاس"@,
            IranCity::Mahneshan => "ماهنشان"@,
            IranCity::Sahrood => "سهرود"@,
            IranCity::Garmab => "گرماب"@,
            IranCity::Dandi => "دندی"@,
            IranCity::Zarinrood => "زرین رود"@,
            IranCity::Nourbahar => "نوربهار"@,
            IranCity::Karasf => "کرسف"@,
            IranCity::Zarinabad => "زرین آباد"@,
            IranCity::Armaghane => "ارمغانه"@,
            IranCity::Chavarzaq => "چورزق"@,
            IranCity::Halab => "حلب"@,
        }
    }

    /// The Persian name of the city.
    pub fn persian_name(&self) -> (r: &'static str)
        ensures
            r@ == self.spec_persian_name(),
    {
        match self {
            IranCity::Zanjan => "زنجان",
            IranCity::Abhar => "ابهر",
            IranCity::Khorramdarreh => "خرمدره",
            IranCity::Gheydar => "قیدار",
            IranCity::Hidaj => "هیدج",
            IranCity::Saeenghale => "صاعین قلعه",
            IranCity::Abbar => "آب بر",
            IranCity::Soltanie => "سلطانیه",
            IranCity::Sajas => "سجاس",
            IranCity::Mahneshan => "ماهنشان",
            IranCity::Sahrood => "سهرود",
            IranCity::Garmab => "گرماب",
            IranCity::Dandi => "دندی",
            IranCity::Zarinrood => "زرین رود",
            IranCity::Nourbahar => "نوربهار",
            IranCity::Karasf => "کرسف",
            IranCity::Zarinabad => "زرین آباد",
            IranCity::Armaghane => "ارمغانه",
            IranCity::Chavarzaq => "چورزق",
            IranCity::Halab => "حلب",
        }
    }

    /// The English name of the city, used for storage.
    pub open spec fn spec_english_name(self) -> Seq<char> {
        match self {
            IranCity::Zanjan => "Zanjan"@,
            IranCity::Abhar => "Abhar"@,
            IranCity::Khorramdarreh => "Khorramdarreh"@,
            IranCity::Gheydar => "Gheydar"@,
            IranCity::Hidaj => "Hidaj"@,
            IranCity::Saeenghale => "Saeenghale"@,
            IranCity::Abbar => "Abbar"@,
            IranCity::Soltanie => "Soltanie"@,
            IranCity::Sajas => "Sajas"@,
            IranCity::Mahneshan => "Mahneshan"@,
            IranCity::Sahrood => "Sahrood"@,
            IranCity::Garmab => "Garmab"@,
            IranCity::Dandi => "Dandi"@,
            IranCity::Zarinrood => "Zarinrood"@,
            IranCity::Nourbahar => "Nourbahar"@,
            IranCity::Karasf => "Karasf"@,
            IranCity::Zarinabad => "Zarinabad"@,
            IranCity::Armaghane => "Armaghane"@,
            IranCity::Chavarzaq => "Chavarzaq"@,
            IranCity::Halab => "Halab"@,
        }
    }

    /// The English name of the city, used for storage.
    pub fn english_name(&self) -> (r: &'static str)
        ensures
            r@ == self.spec_english_name(),
    {
        match self {
            IranCity::Zanjan => "Zanjan",
            IranCity::Abhar => "Abhar",
            IranCity::Khorramdarreh => "Khorramdarreh",
            IranCity::Gheydar => "Gheydar",
            IranCity::Hidaj => "Hidaj",
            IranCity::Saeenghale => "Saeenghale",
            IranCity::Abbar => "Abbar",
            IranCity::Soltanie => "Soltanie",
            IranCity::Sajas => "Sajas",
            IranCity::Mahneshan => "Mahneshan",
            IranCity::Sahrood => "Sahrood",
            IranCity::Garmab => "Garmab",
            IranCity::Dandi => "Dandi",
            IranCity::Zarinrood => "Zarinrood",
            IranCity::Nourbahar => "Nourbahar",
            IranCity::Karasf => "Karasf",
            IranCity::Zarinabad => "Zarinabad",
            IranCity::Armaghane => "Armaghane",
            IranCity::Chavarzaq => "Chavarzaq",
            IranCity::Halab => "Halab",
        }
    }

    /// The cities in ascending order of their Persian names (by code
    /// point, as string comparison orders them).
    pub open spec fn spec_all() -> Seq<IranCity> {
        seq![
            IranCity::Abbar,
            IranCity::Abhar,
            IranCity::Armaghane,
            IranCity::Halab,
            IranCity::Khorramdarreh,
            IranCity::Dandi,
            IranCity::Zarinabad,
            IranCity::Zarinrood,
            IranCity::Zanjan,
            IranCity::Sajas,
            IranCity::Soltanie,
            IranCity::Sahrood,
            IranCity::Saeenghale,
            IranCity::Gheydar,
            IranCity::Mahneshan,
            IranCity::Nourbahar,
            IranCity::Hidaj,
            IranCity::Chavarzaq,
            IranCity::Karasf,
            IranCity::Garmab,
        ]
    }

    /// All cities, sorted by Persian name for display.
    pub fn all() -> (r: Vec<IranCity>)
        ensures
            r@ == IranCity::spec_all(),
            forall|i: int|
                0 <= i < r@.len() - 1 ==> lex_lt(
                    (#[trigger] r@[i]).spec_persian_name(),
                    r@[i + 1].spec_persian_name(),
                ),
    {
        let mut cities: Vec<IranCity> = Vec::new();
        cities.push(IranCity::Abbar);
        cities.push(IranCity::Abhar);
        cities.push(IranCity::Armaghane);
        cities.push(IranCity::Halab);
        cities.push(IranCity::Khorramdarreh);
        cities.push(IranCity::Dandi);
        cities.push(IranCity::Zarinabad);
        cities.push(IranCity::Zarinrood);
        cities.push(IranCity::Zanjan);
        cities.push(IranCity::Sajas);
        cities.push(IranCity::Soltanie);
        cities.push(IranCity::Sahrood);
        cities.push(IranCity::Saeenghale);
        cities.push(IranCity::Gheydar);
        cities.push(IranCity::Mahneshan);
        cities.push(IranCity::Nourbahar);
        cities.push(IranCity::Hidaj);
        cities.push(IranCity::Chavarzaq);
        cities.push(IranCity::Karasf);
        cities.push(IranCity::Garmab);
        proof {
            assert(cities@ =~= IranCity::spec_all());
            lemma_all_sorted();
        }
        cities
    }

    /// The city that the English name `s` names.
    pub open spec fn spec_from_str(s: Seq<char>) -> Option<IranCity> {
        if s == "Zanjan"@ { Some(IranCity::Zanjan) }
        else if s == "Abhar"@ { Some(IranCity::Abhar) }
        else if s == "Khorramdarreh"@ { Some(IranCity::Khorramdarreh) }
        else if s == "Gheydar"@ { Some(IranCity::Gheydar) }
        else if s == "Hidaj"@ { Some(IranCity::Hidaj) }
        else if s == "Saeenghale"@ { Some(IranCity::Saeenghale) }
        else if s == "Abbar"@ { Some(IranCity::Abbar) }
        else if s == "Soltanie"@ { Some(IranCity::Soltanie) }
        else if s == "Sajas"@ { Some(IranCity::Sajas) }
        else if s == "Mahneshan"@ { Some(IranCity::Mahneshan) }
        else if s == "Sahrood"@ { Some(IranCity::Sahrood) }
        else if s == "Garmab"@ { Some(IranCity::Garmab) }
        else if s == "Dandi"@ { Some(IranCity::Dandi) }
        else if s == "Zarinrood"@ { Some(IranCity::Zarinrood) }
        else if s == "Nourbahar"@ { Some(IranCity::Nourbahar) }
        else if s == "Karasf"@ { Some(IranCity::Karasf) }
        else if s == "Zarinabad"@ { Some(IranCity::Zarinabad) }
        else if s == "Armaghane"@ { Some(IranCity::Armaghane) }
        else if s == "Chavarzaq"@ { Some(IranCity::Chavarzaq) }
        else if s == "Halab"@ { Some(IranCity::Halab) }
        else { None }
    }

    /// Parses a city from its English storage name.
    pub fn from_str(s: &str) -> (r: Option<IranCity>)
        ensures
            r == IranCity::spec_from_str(s@),
    {
        if str_eq(s, "Zanjan") { Some(IranCity::Zanjan) }
        else if str_eq(s, "Abhar") { Some(IranCity::Abhar) }
        else if str_eq(s, "Khorramdarreh") { Some(IranCity::Khorramdarreh) }
        else if str_eq(s, "Gheydar") { Some(IranCity::Gheydar) }
        else if str_eq(s, "Hidaj") { Some(IranCity::Hidaj) }
        else if str_eq(s, "Saeenghale") { Some(IranCity::Saeenghale) }
        else if str_eq(s, "Abbar") { Some(IranCity::Abbar) }
        else if str_eq(s, "Soltanie") { Some(IranCity::Soltanie) }
        else if str_eq(s, "Sajas") { Some(IranCity::Sajas) }
        else if str_eq(s, "Mahneshan") { Some(IranCity::Mahneshan) }
        else if str_eq(s, "Sahrood") { Some(IranCity::Sahrood) }
        else if str_eq(s, "Garmab") { Some(IranCity::Garmab) }
        else if str_eq(s, "Dandi") { Some(IranCity::Dandi) }
        else if str_eq(s, "Zarinrood") { Some(IranCity::Zarinrood) }
        else if str_eq(s, "Nourbahar") { Some(IranCity::Nourbahar) }
        else if str_eq(s, "Karasf") { Some(IranCity::Karasf) }
        else if str_eq(s, "Zarinabad") { Some(IranCity::Zarinabad) }
        else if str_eq(s, "Armaghane") { Some(IranCity::Armaghane) }
        else if str_eq(s, "Chavarzaq") { Some(IranCity::Chavarzaq) }
        else if str_eq(s, "Halab") { Some(IranCity::Halab) }
        else { None }
    }
}

/// A city record with code, names and province, for the table of
/// major Iranian cities.
#[derive(Debug, Clone)]
pub struct City {
    pub code: String,
    pub name_fa: String,
    pub name_en: String,
    pub province: String,
}

impl City {
    /// The major Iranian cities.
    pub fn iranian_cities() -> (r: Vec<City>)
        ensures
            r@.len() == 8,
            r@[0].code@ == "TEH"@ && r@[0].name_en@ == "Tehran"@,
            r@[1].code@ == "ISF"@ && r@[1].name_en@ == "Isfahan"@,
            r@[2].code@ == "SHZ"@ && r@[2].name_en@ == "Shiraz"@,
            r@[3].code@ == "MHD"@ && r@[3].name_en@ == "Mashhad"@,
            r@[4].code@ == "TBZ"@ && r@[4].name_en@ == "Tabriz"@,
            r@[5].code@ == "KRJ"@ && r@[5].name_en@ == "Karaj"@,
            r@[6].code@ == "QOM"@ && r@[6].name_en@ == "Qom"@,
            r@[7].code@ == "AHZ"@ && r@[7].name_en@ == "Ahvaz"@,
            r@[0].name_fa@ == "تهران"@ && r@[0].province@ == "تهران"@,
            r@[1].name_fa@ == "اصفهان"@ && r@[1].province@ == "اصفهان"@,
            r@[2].name_fa@ == "شیراز"@ && r@[2].province@ == "فارس"@,
            r@[3].name_fa@ == "مشهد"@ && r@[3].province@ == "خراسان رضوی"@,
            r@[4].name_fa@ == "تبریز"@ && r@[4].province@ == "آذربایجان شرقی"@,
            r@[5].name_fa@ == "کرج"@ && r@[5].province@ == "البرز"@,
            r@[6].name_fa@ == "قم"@ && r@[6].province@ == "قم"@,
            r@[7].name_fa@ == "اهواز"@ && r@[7].province@ == "خوزستان"@,
    {
        let mut cities: Vec<City> = Vec::new();
        cities.push(
            City {
                code: "TEH".to_owned(),
                name_fa: "تهران".to_owned(),
                name_en: "Tehran".to_owned(),
                province: "تهران".to_owned(),
            },
        );
        cities.push(
            City {
                code: "ISF".to_owned(),
                name_fa: "اصفهان".to_owned(),
                name_en: "Isfahan".to_owned(),
                province: "اصفهان".to_owned(),
            },
        );
        cities.push(
            City {
                code: "SHZ".to_owned(),
                name_fa: "شیراز".to_owned(),
                name_en: "Shiraz".to_owned(),
                province: "فارس".to_owned(),
            },
        );
        cities.push(
            City {
                code: "MHD".to_owned(),
                name_fa: "مشهد".to_owned(),
                name_en: "Mashhad".to_owned(),
                province: "خراسان رضوی".to_owned(),
            },
        );
        cities.push(
            City {
                code: "TBZ".to_owned(),
                name_fa: "تبریز".to_owned(),
                name_en: "Tabriz".to_owned(),
                province: "آذربایجان شرقی".to_owned(),
            },
        );
        cities.push(
            City {
                code: "KRJ".to_owned(),
                name_fa: "کرج".to_owned(),
                name_en: "Karaj".to_owned(),
                province: "البرز".to_owned(),
            },
        );
        cities.push(
            City {
                code: "QOM".to_owned(),
                name_fa: "قم".to_owned(),
                name_en: "Qom".to_owned(),
                province: "قم".to_owned(),
            },
        );
        cities.push(
            City {
                code: "AHZ".to_owned(),
                name_fa: "اهواز".to_owned(),
                name_en: "Ahvaz".to_owned(),
                province: "خوزستان".to_owned(),
            },
        );
        cities
    }
}

/// The city table is in strictly ascending order of Persian names.
proof fn lemma_all_sorted()
    ensures
        forall|i: int|
            0 <= i < IranCity::spec_all().len() - 1 ==> lex_lt(
                (#[trigger] IranCity::spec_all()[i]).spec_persian_name(),
                IranCity::spec_all()[i + 1].spec_persian_name(),
            ),
{
    reveal_strlit("زنجان");
    reveal_strlit("ابهر");
    reveal_strlit("خرمدره");
    reveal_strlit("قیدار");
    reveal_strlit("هیدج");
    reveal_strlit("صاعین قلعه");
    reveal_strlit("آب بر");
    reveal_strlit("سلطانیه");
    reveal_strlit("سجاس");
    reveal_strlit("ماهنشان");
    reveal_strlit("سهرود");
    reveal_strlit("گرماب");
    reveal_strlit("دندی");
    reveal_strlit("زرین رود");
    reveal_strlit("نوربهار");
    reveal_strlit("کرسف");
    reveal_strlit("زرین آباد");
    reveal_strlit("ارمغانه");
    reveal_strlit("چورزق");
    reveal_strlit("حلب");
    assert forall|i: int| 0 <= i < IranCity::spec_all().len() - 1 implies lex_lt(
        (#[trigger] IranCity::spec_all()[i]).spec_persian_name(),
        IranCity::spec_all()[i + 1].spec_persian_name(),
    ) by {
        reveal_with_fuel(crate::strutil::lex_lt, 8);
    }
}

} // verus!
