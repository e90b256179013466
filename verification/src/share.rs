//! Lookup tables shared by the probes: system-on-chip model names and
//! locale identifiers, plus the file-stem helper.

use vstd::prelude::*;

use crate::strutil::str_eq;
use crate::utils::file::spec_filename;

verus! {

/// The file stem of a path: the last path segment without its extension.
pub fn get_file_name(path: &str) -> (r: Option<String>)
    ensures
        r matches Some(v) && v@ == spec_filename(path@),
{
    crate::utils::file::get_filename(path)
}

/// The marketing name of a system-on-chip model code, for the codes the
/// table knows.
pub open spec fn spec_detect_cpu(name: Seq<char>) -> Option<Seq<char>> {
    if name == "SM8750-AC"@ {
        Some("Qualcomm Snapdragon 8 Elite for Galaxy [SM8750-AC]"@)
    } else if name == "SM8750-3"@ {
        Some("Qualcomm Snapdragon 8 Elite [SM8750-3]"@)
    } else if name == "SM8750"@ {
        Some("Qualcomm Snapdragon 8 Elite [SM8750]"@)
    } else if name == "SM8635"@ {
        Some("Qualcomm Snapdragon 8s Gen 3 [SM8635]"@)
    } else if name == "SM8650-AC"@ {
        Some("Qualcomm Snapdragon 8 Gen 3 for Galaxy [SM8650-AC]"@)
    } else if name == "SM8650"@ {
        Some("Qualcomm Snapdragon 8 Gen 3 [SM8650]"@)
    } else if name == "SM8550-AC"@ {
        Some("Qualcomm Snapdragon 8 Gen 2 for Galaxy [SM8550-AC]"@)
    } else if name == "SM8550"@ {
        Some("Qualcomm Snapdragon 8 Gen 2 [SM8550]"@)
    } else if name == "SM8475"@ {
        Some("Qualcomm Snapdragon 8+ Gen 1 [SM8475]"@)
    } else if name == "SM8450"@ {
        Some("Qualcomm Snapdragon 8 Gen 1 [SM8450]"@)
    } else if name == "SM7675"@ {
        Some("Qualcomm Snapdragon 7+ Gen 3 [SM7675]"@)
    } else if name == "SM7635"@ {
        Some("Qualcomm Snapdragon 7s Gen 3 [SM7635]"@)
    } else if name == "SM7550"@ {
        Some("Qualcomm Snapdragon 7 Gen 3 [SM7550]"@)
    } else if name == "SM7475"@ {
        Some("Qualcomm Snapdragon 7+ Gen 2 [SM7550]"@)
    } else if name == "SM7435"@ {
        Some("Qualcomm Snapdragon 7s Gen 2 [SM7435]"@)
    } else if name == "SM7450"@ {
        Some("Qualcomm Snapdragon 7 Gen 1 [SM7450]"@)
    } else if name == "SM6375-AC"@ {
        Some("Qualcomm Snapdragon 6s Gen 3 [SM6375-AC]"@)
    } else if name == "SM6475"@ {
        Some("Qualcomm Snapdragon 6 Gen 3 [SM6475]"@)
    } else if name == "SM6115"@ {
        Some("Qualcomm Snapdragon 6s Gen 1 [SM6115]"@)
    } else if name == "SM6450"@ {
        Some("Qualcomm Snapdragon 6 Gen 1 [SM6450]"@)
    } else if name == "SM4635"@ {
        Some("Qualcomm Snapdragon 4s Gen 2 [SM4635]"@)
    } else if name == "SM4450"@ {
        Some("Qualcomm Snapdragon 4 Gen 2 [SM4450]"@)
    } else if name == "SM4375"@ {
        Some("Qualcomm Snapdragon 4 Gen 1 [SM4375]"@)
    } else if name == "MT6991"@ {
        Some("MediaTek Dimensity 9400 [MT6991]"@)
    } else if name == "MT6991Z"@ {
        Some("MediaTek Dimensity 9400 [MT6991Z]"@)
    } else if name == "MT6989Z"@ {
        Some("MediaTek Dimensity 9300+ [MT6989Z]"@)
    } else if name == "MT8796Z"@ {
        Some("MediaTek Dimensity 9300+ [MT8796Z]"@)
    } else if name == "MT6989"@ {
        Some("MediaTek Dimensity 9300 [MT6989]"@)
    } else if name == "MT8796"@ {
        Some("MediaTek Dimensity 9300 [MT8796]"@)
    } else if name == "MT6985W"@ {
        Some("MediaTek Dimensity 9200+ [MT6985W]"@)
    } else if name == "MT6985"@ {
        Some("MediaTek Dimensity 9200 [MT6985]"@)
    } else if name == "MT6983W"@ {
        Some("MediaTek Dimensity 9000+ [MT6983W]"@)
    } else if name == "MT8798Z/T"@ {
        Some("MediaTek Dimensity 9000+ [MT8798Z/T]"@)
    } else if name == "MT6983Z"@ {
        Some("MediaTek Dimensity 9000 [MT6983Z]"@)
    } else if name == "MT8798Z/C"@ {
        Some("MediaTek Dimensity 9000 [MT8798Z/C]"@)
    } else {
        None
    }
}

/// Looks a system-on-chip model code up in the model table.
pub fn detect_cpu(name: &str) -> (r: Option<String>)
    ensures
        match r {
            Some(v) => spec_detect_cpu(name@) == Some(v@),
            None => spec_detect_cpu(name@) is None,
        },
{
    if str_eq(name, "SM8750-AC") {
        Some(String::from_str("Qualcomm Snapdragon 8 Elite for Galaxy [SM8750-AC]"))
    } else if str_eq(name, "SM8750-3") {
        Some(String::from_str("Qualcomm Snapdragon 8 Elite [SM8750-3]"))
    } else if str_eq(name, "SM8750") {
        Some(String::from_str("Qualcomm Snapdragon 8 Elite [SM8750]"))
    } else if str_eq(name, "SM8635") {
        Some(String::from_str("Qualcomm Snapdragon 8s Gen 3 [SM8635]"))
    } else if str_eq(name, "SM8650-AC") {
        Some(String::from_str("Qualcomm Snapdragon 8 Gen 3 for Galaxy [SM8650-AC]"))
    } else if str_eq(name, "SM8650") {
        Some(String::from_str("Qualcomm Snapdragon 8 Gen 3 [SM8650]"))
    } else if str_eq(name, "SM8550-AC") {
        Some(String::from_str("Qualcomm Snapdragon 8 Gen 2 for Galaxy [SM8550-AC]"))
    } else if str_eq(name, "SM8550") {
        Some(String::from_str("Qualcomm Snapdragon 8 Gen 2 [SM8550]"))
    } else if str_eq(name, "SM8475") {
        Some(String::from_str("Qualcomm Snapdragon 8+ Gen 1 [SM8475]"))
    } else if str_eq(name, "SM8450") {
        Some(String::from_str("Qualcomm Snapdragon 8 Gen 1 [SM8450]"))
    } else if str_eq(name, "SM7675") {
        Some(String::from_str("Qualcomm Snapdragon 7+ Gen 3 [SM7675]"))
    } else if str_eq(name, "SM7635") {
        Some(String::from_str("Qualcomm Snapdragon 7s Gen 3 [SM7635]"))
    } else if str_eq(name, "SM7550") {
        Some(String::from_str("Qualcomm Snapdragon 7 Gen 3 [SM7550]"))
    } else if str_eq(name, "SM7475") {
        Some(String::from_str("Qualcomm Snapdragon 7+ Gen 2 [SM7550]"))
    } else if str_eq(name, "SM7435") {
        Some(String::from_str("Qualcomm Snapdragon 7s Gen 2 [SM7435]"))
    } else if str_eq(name, "SM7450") {
        Some(String::from_str("Qualcomm Snapdragon 7 Gen 1 [SM7450]"))
    } else if str_eq(name, "SM6375-AC") {
        Some(String::from_str("Qualcomm Snapdragon 6s Gen 3 [SM6375-AC]"))
    } else if str_eq(name, "SM6475") {
        Some(String::from_str("Qualcomm Snapdragon 6 Gen 3 [SM6475]"))
    } else if str_eq(name, "SM6115") {
        Some(String::from_str("Qualcomm Snapdragon 6s Gen 1 [SM6115]"))
    } else if str_eq(name, "SM6450") {
        Some(String::from_str("Qualcomm Snapdragon 6 Gen 1 [SM6450]"))
    } else if str_eq(name, "SM4635") {
        Some(String::from_str("Qualcomm Snapdragon 4s Gen 2 [SM4635]"))
    } else if str_eq(name, "SM4450") {
        Some(String::from_str("Qualcomm Snapdragon 4 Gen 2 [SM4450]"))
    } else if str_eq(name, "SM4375") {
        Some(String::from_str("Qualcomm Snapdragon 4 Gen 1 [SM4375]"))
    } else if str_eq(name, "MT6991") {
        Some(String::from_str("MediaTek Dimensity 9400 [MT6991]"))
    } else if str_eq(name, "MT6991Z") {
        Some(String::from_str("MediaTek Dimensity 9400 [MT6991Z]"))
    } else if str_eq(name, "MT6989Z") {
        Some(String::from_str("MediaTek Dimensity 9300+ [MT6989Z]"))
    } else if str_eq(name, "MT8796Z") {
        Some(String::from_str("MediaTek Dimensity 9300+ [MT8796Z]"))
    } else if str_eq(name, "MT6989") {
        Some(String::from_str("MediaTek Dimensity 9300 [MT6989]"))
    } else if str_eq(name, "MT8796") {
        Some(String::from_str("MediaTek Dimensity 9300 [MT8796]"))
    } else if str_eq(name, "MT6985W") {
        Some(String::from_str("MediaTek Dimensity 9200+ [MT6985W]"))
    } else if str_eq(name, "MT6985") {
        Some(String::from_str("MediaTek Dimensity 9200 [MT6985]"))
    } else if str_eq(name, "MT6983W") {
        Some(String::from_str("MediaTek Dimensity 9000+ [MT6983W]"))
    } else if str_eq(name, "MT8798Z/T") {
        Some(String::from_str("MediaTek Dimensity 9000+ [MT8798Z/T]"))
    } else if str_eq(name, "MT6983Z") {
        Some(String::from_str("MediaTek Dimensity 9000 [MT6983Z]"))
    } else if str_eq(name, "MT8798Z/C") {
        Some(String::from_str("MediaTek Dimensity 9000 [MT8798Z/C]"))
    } else {
        None
    }
}

/// The language tag of a hexadecimal locale code, for the codes the table
/// knows.
pub open spec fn spec_detect_locale(name: Seq<char>) -> Option<Seq<char>> {
    if name == "0004"@ {
        Some("zh-CHS"@)
    } else if name == "0401"@ {
        Some("ar-SA"@)
    } else if name == "0402"@ {
        Some("bg-BG"@)
    } else if name == "0403"@ {
        Some("ca-ES"@)
    } else if name == "0404"@ {
        Some("zh-TW"@)
    } else if name == "0405"@ {
        Some("cs-CZ"@)
    } else if name == "0406"@ {
        Some("da-DK"@)
    } else if name == "0407"@ {
        Some("de-DE"@)
    } else if name == "0408"@ {
        Some("el-GR"@)
    } else if name == "0409"@ {
        Some("en-US"@)
    } else if name == "040A"@ {
        Some("es-ES_tradnl"@)
    } else if name == "040B"@ {
        Some("fi-FI"@)
    } else if name == "040C"@ {
        Some("fr-FR"@)
    } else if name == "040D"@ {
        Some("he-IL"@)
    } else if name == "040E"@ {
        Some("hu-HU"@)
    } else if name == "040F"@ {
        Some("is-IS"@)
    } else if name == "0410"@ {
        Some("it-IT"@)
    } else if name == "0411"@ {
        Some("ja-JP"@)
    } else if name == "0412"@ {
        Some("ko-KR"@)
    } else if name == "0413"@ {
        Some("nl-NL"@)
    } else if name == "0414"@ {
        Some("nb-NO"@)
    } else if name == "0415"@ {
        Some("pl-PL"@)
    } else if name == "0416"@ {
        Some("pt-BR"@)
    } else if name == "0417"@ {
        Some("rm-CH"@)
    } else if name == "0418"@ {
        Some("ro-RO"@)
    } else if name == "0419"@ {
        Some("ru-RU"@)
    } else if name == "041A"@ {
        Some("hr-HR"@)
    } else if name == "041B"@ {
        Some("sk-SK"@)
    } else if name == "041C"@ {
        Some("sq-AL"@)
    } else if name == "041D"@ {
        Some("sv-SE"@)
    } else if name == "041E"@ {
        Some("th-TH"@)
    } else if name == "041F"@ {
        Some("tr-TR"@)
    } else if name == "0420"@ {
        Some("ur-PK"@)
    } else if name == "0421"@ {
        Some("id-ID"@)
    } else if name == "0422"@ {
        Some("uk-UA"@)
    } else if name == "0423"@ {
        Some("be-BY"@)
    } else if name == "0424"@ {
        Some("sl-SI"@)
    } else if name == "0425"@ {
        Some("et-EE"@)
    } else if name == "0426"@ {
        Some("lv-LV"@)
    } else if name == "0427"@ {
        Some("lt-LT"@)
    } else if name == "0428"@ {
        Some("tg-Cyrl-TJ"@)
    } else if name == "0429"@ {
        Some("fa-IR"@)
    } else if name == "042A"@ {
        Some("vi-VN"@)
    } else if name == "042B"@ {
        Some("hy-AM"@)
    } else if name == "042C"@ {
        Some("az-Latn-AZ"@)
    } else if name == "042D"@ {
        Some("eu-ES"@)
    } else if name == "042E"@ {
        Some("hsb-DE"@)
    } else if name == "042F"@ {
        Some("mk-MK"@)
    } else if name == "0432"@ {
        Some("tn-ZA"@)
    } else if name == "0434"@ {
        Some("xh-ZA"@)
    } else if name == "0435"@ {
        Some("zu-ZA"@)
    } else if name == "0436"@ {
        Some("af-ZA"@)
    } else if name == "0437"@ {
        Some("ka-GE"@)
    } else if name == "0438"@ {
        Some("fo-FO"@)
    } else if name == "0439"@ {
        Some("hi-IN"@)
    } else if name == "043A"@ {
        Some("mt-MT"@)
    } else if name == "043B"@ {
        Some("se-NO"@)
    } else if name == "043e"@ {
        Some("ms-MY"@)
    } else if name == "043F"@ {
        Some("kk-KZ"@)
    } else if name == "0440"@ {
        Some("ky-KG"@)
    } else if name == "0441"@ {
        Some("sw-KE"@)
    } else if name == "0442"@ {
        Some("tk-TM"@)
    } else if name == "0443"@ {
        Some("uz-Latn-UZ"@)
    } else if name == "0444"@ {
        Some("tt-RU"@)
    } else if name == "0445"@ {
        Some("bn-IN"@)
    } else if name == "0446"@ {
        Some("pa-IN"@)
    } else if name == "0447"@ {
        Some("gu-IN"@)
    } else if name == "0448"@ {
        Some("or-IN"@)
    } else if name == "0449"@ {
        Some("ta-IN"@)
    } else if name == "044A"@ {
        Some("te-IN"@)
    } else if name == "044B"@ {
        Some("kn-IN"@)
    } else if name == "044C"@ {
        Some("ml-IN"@)
    } else if name == "044D"@ {
        Some("as-IN"@)
    } else if name == "044E"@ {
        Some("mr-IN"@)
    } else if name == "044F"@ {
        Some("sa-IN"@)
    } else if name == "0450"@ {
        Some("mn-MN"@)
    } else if name == "0451"@ {
        Some("bo-CN"@)
    } else if name == "0452"@ {
        Some("cy-GB"@)
    } else if name == "0453"@ {
        Some("km-KH"@)
    } else if name == "0454"@ {
        Some("lo-LA"@)
    } else if name == "0456"@ {
        Some("gl-ES"@)
    } else if name == "0457"@ {
        Some("kok-IN"@)
    } else if name == "0459"@ {
        Some("sd-Deva-IN"@)
    } else if name == "045A"@ {
        Some("syr-SY"@)
    } else if name == "045B"@ {
        Some("si-LK"@)
    } else if name == "045C"@ {
        Some("chr-Cher-US"@)
    } else if name == "045D"@ {
        Some("iu-Cans-CA"@)
    } else if name == "045E"@ {
        Some("am-ET"@)
    } else if name == "0461"@ {
        Some("ne-NP"@)
    } else if name == "0462"@ {
        Some("fy-NL"@)
    } else if name == "0463"@ {
        Some("ps-AF"@)
    } else if name == "0464"@ {
        Some("fil-PH"@)
    } else if name == "0465"@ {
        Some("dv-MV"@)
    } else if name == "0468"@ {
        Some("ha-Latn-NG"@)
    } else if name == "046A"@ {
        Some("yo-NG"@)
    } else if name == "046B"@ {
        Some("quz-BO"@)
    } else if name == "046C"@ {
        Some("nso-ZA"@)
    } else if name == "046D"@ {
        Some("ba-RU"@)
    } else if name == "046E"@ {
        Some("lb-LU"@)
    } else if name == "046F"@ {
        Some("kl-GL"@)
    } else if name == "0470"@ {
        Some("ig-NG"@)
    } else if name == "0473"@ {
        Some("ti-ET"@)
    } else if name == "0475"@ {
        Some("haw-US"@)
    } else if name == "0478"@ {
        Some("ii-CN"@)
    } else if name == "047A"@ {
        Some("arn-CL"@)
    } else if name == "047C"@ {
        Some("moh-CA"@)
    } else if name == "047E"@ {
        Some("br-FR"@)
    } else if name == "0480"@ {
        Some("ug-CN"@)
    } else if name == "0481"@ {
        Some("mi-NZ"@)
    } else if name == "0482"@ {
        Some("oc-FR"@)
    } else if name == "0483"@ {
        Some("co-FR"@)
    } else if name == "0484"@ {
        Some("gsw-FR"@)
    } else if name == "0485"@ {
        Some("sah-RU"@)
    } else if name == "0486"@ {
        Some("quc-Latn-GT"@)
    } else if name == "0487"@ {
        Some("rw-RW"@)
    } else if name == "0488"@ {
        Some("wo-SN"@)
    } else if name == "048C"@ {
        Some("prs-AF"@)
    } else if name == "0491"@ {
        Some("gd-GB"@)
    } else if name == "0492"@ {
        Some("ku-Arab-IQ"@)
    } else if name == "0801"@ {
        Some("ar-IQ"@)
    } else if name == "0803"@ {
        Some("ca-ES-valencia"@)
    } else if name == "0804"@ {
        Some("zh-CN"@)
    } else if name == "0807"@ {
        Some("de-CH"@)
    } else if name == "0809"@ {
        Some("en-GB"@)
    } else if name == "080A"@ {
        Some("es-MX"@)
    } else if name == "080C"@ {
        Some("fr-BE"@)
    } else if name == "0810"@ {
        Some("it-CH"@)
    } else if name == "0813"@ {
        Some("nl-BE"@)
    } else if name == "0814"@ {
        Some("nn-NO"@)
    } else if name == "0816"@ {
        Some("pt-PT"@)
    } else if name == "081A"@ {
        Some("sr-Latn-CS"@)
    } else if name == "081D"@ {
        Some("sv-FI"@)
    } else if name == "0820"@ {
        Some("ur-IN"@)
    } else if name == "082C"@ {
        Some("az-Cyrl-AZ"@)
    } else if name == "082E"@ {
        Some("dsb-DE"@)
    } else if name == "0832"@ {
        Some("tn-BW"@)
    } else if name == "083B"@ {
        Some("se-SE"@)
    } else if name == "083C"@ {
        Some("ga-IE"@)
    } else if name == "083E"@ {
        Some("ms-BN"@)
    } else if name == "0843"@ {
        Some("uz-Cyrl-UZ"@)
    } else if name == "0845"@ {
        Some("bn-BD"@)
    } else if name == "0846"@ {
        Some("pa-Arab-PK"@)
    } else if name == "0849"@ {
        Some("ta-LK"@)
    } else if name == "0850"@ {
        Some("mn-Mong-CN"@)
    } else if name == "0859"@ {
        Some("sd-Arab-PK"@)
    } else if name == "085D"@ {
        Some("iu-Latn-CA"@)
    } else if name == "085F"@ {
        Some("tzm-Latn-DZ"@)
    } else if name == "0867"@ {
        Some("ff-Latn-SN"@)
    } else if name == "086B"@ {
        Some("quz-EC"@)
    } else if name == "0873"@ {
        Some("ti-ER"@)
    } else if name == "0873"@ {
        Some("ti-ER"@)
    } else if name == "0C01"@ {
        Some("ar-EG"@)
    } else if name == "0C04"@ {
        Some("zh-HK"@)
    } else if name == "0C07"@ {
        Some("de-AT"@)
    } else if name == "0C09"@ {
        Some("en-AU"@)
    } else if name == "0C0A"@ {
        Some("es-ES"@)
    } else if name == "0C0C"@ {
        Some("fr-CA"@)
    } else if name == "0C1A"@ {
        Some("sr-Cyrl-CS"@)
    } else if name == "0C3B"@ {
        Some("se-FI"@)
    } else if name == "0C6B"@ {
        Some("quz-PE"@)
    } else if name == "1001"@ {
        Some("ar-LY"@)
    } else if name == "1004"@ {
        Some("zh-SG"@)
    } else if name == "1007"@ {
        Some("de-LU"@)
    } else if name == "1009"@ {
        Some("en-CA"@)
    } else if name == "100A"@ {
        Some("es-GT"@)
    } else if name == "100C"@ {
        Some("fr-CH"@)
    } else if name == "101A"@ {
        Some("hr-BA"@)
    } else if name == "103B"@ {
        Some("smj-NO"@)
    } else if name == "105F"@ {
        Some("tzm-Tfng-MA"@)
    } else if name == "1401"@ {
        Some("ar-DZ"@)
    } else if name == "1404"@ {
        Some("zh-MO"@)
    } else if name == "1407"@ {
        Some("de-LI"@)
    } else if name == "1409"@ {
        Some("en-NZ"@)
    } else if name == "140A"@ {
        Some("es-CR"@)
    } else if name == "140C"@ {
        Some("fr-LU"@)
    } else if name == "141A"@ {
        Some("bs-Latn-BA"@)
    } else if name == "143B"@ {
        Some("smj-SE"@)
    } else if name == "1801"@ {
        Some("ar-MA"@)
    } else if name == "1809"@ {
        Some("en-IE"@)
    } else if name == "180A"@ {
        Some("es-PA"@)
    } else if name == "180C"@ {
        Some("fr-MC"@)
    } else if name == "181A"@ {
        Some("sr-Latn-BA"@)
    } else if name == "183B"@ {
        Some("sma-NO"@)
    } else if name == "1C01"@ {
        Some("ar-TN"@)
    } else if name == "1c09"@ {
        Some("en-ZA"@)
    } else if name == "1C0A"@ {
        Some("es-DO"@)
    } else if name == "1C1A"@ {
        Some("sr-Cyrl-BA"@)
    } else if name == "1C3B"@ {
        Some("sma-SE"@)
    } else if name == "2001"@ {
        Some("ar-OM"@)
    } else if name == "2009"@ {
        Some("en-JM"@)
    } else if name == "200A"@ {
        Some("es-VE"@)
    } else if name == "201A"@ {
        Some("bs-Cyrl-BA"@)
    } else if name == "203B"@ {
        Some("sms-FI"@)
    } else if name == "2401"@ {
        Some("ar-YE"@)
    } else if name == "2409"@ {
        Some("en-029"@)
    } else if name == "240A"@ {
        Some("es-CO"@)
    } else if name == "241A"@ {
        Some("sr-Latn-RS"@)
    } else if name == "243B"@ {
        Some("smn-FI"@)
    } else if name == "2801"@ {
        Some("ar-SY"@)
    } else if name == "2809"@ {
        Some("en-BZ"@)
    } else if name == "280A"@ {
        Some("es-PE"@)
    } else if name == "281A"@ {
        Some("sr-Cyrl-RS"@)
    } else if name == "2C01"@ {
        Some("ar-JO"@)
    } else if name == "2C09"@ {
        Some("en-TT"@)
    } else if name == "2C0A"@ {
        Some("es-AR"@)
    } else if name == "2C1A"@ {
        Some("sr-Latn-ME"@)
    } else if name == "3001"@ {
        Some("ar-LB"@)
    } else if name == "3009"@ {
        Some("en-ZW"@)
    } else if name == "300A"@ {
        Some("es-EC"@)
    } else if name == "301A"@ {
        Some("sr-Cyrl-ME"@)
    } else if name == "3401"@ {
        Some("ar-KW"@)
    } else if name == "3409"@ {
        Some("en-PH"@)
    } else if name == "340A"@ {
        Some("es-CL"@)
    } else if name == "3801"@ {
        Some("ar-AE"@)
    } else if name == "380A"@ {
        Some("es-UY"@)
    } else if name == "3C01"@ {
        Some("ar-BH"@)
    } else if name == "3C0A"@ {
        Some("es-PY"@)
    } else if name == "4001"@ {
        Some("ar-QA"@)
    } else if name == "4009"@ {
        Some("en-IN"@)
    } else if name == "400A"@ {
        Some("es-BO"@)
    } else if name == "4409"@ {
        Some("en-MY"@)
    } else if name == "440A"@ {
        Some("es-SV"@)
    } else if name == "4809"@ {
        Some("en-SG"@)
    } else if name == "480A"@ {
        Some("es-HN"@)
    } else if name == "4C0A"@ {
        Some("es-NI"@)
    } else if name == "500A"@ {
        Some("es-PR"@)
    } else if name == "540A"@ {
        Some("es-US"@)
    } else if name == "7C04"@ {
        Some("zh-CHT"@)
    } else {
        None
    }
}

/// Looks a hexadecimal locale code up in the locale table.
#[verifier::rlimit(100)]
pub fn detect_locale(name: &str) -> (r: Option<String>)
    ensures
        match r {
            Some(v) => spec_detect_locale(name@) == Some(v@),
            None => spec_detect_locale(name@) is None,
        },
{
    if str_eq(name, "0004") {
        Some(String::from_str("zh-CHS"))
    } else if str_eq(name, "0401") {
        Some(String::from_str("ar-SA"))
    } else if str_eq(name, "0402") {
        Some(String::from_str("bg-BG"))
    } else if str_eq(name, "0403") {
        Some(String::from_str("ca-ES"))
    } else if str_eq(name, "0404") {
        Some(String::from_str("zh-TW"))
    } else if str_eq(name, "0405") {
        Some(String::from_str("cs-CZ"))
    } else if str_eq(name, "0406") {
        Some(String::from_str("da-DK"))
    } else if str_eq(name, "0407") {
        Some(String::from_str("de-DE"))
    } else if str_eq(name, "0408") {
        Some(String::from_str("el-GR"))
    } else if str_eq(name, "0409") {
        Some(String::from_str("en-US"))
    } else if str_eq(name, "040A") {
        Some(String::from_str("es-ES_tradnl"))
    } else if str_eq(name, "040B") {
        Some(String::from_str("fi-FI"))
    } else if str_eq(name, "040C") {
        Some(String::from_str("fr-FR"))
    } else if str_eq(name, "040D") {
        Some(String::from_str("he-IL"))
    } else if str_eq(name, "040E") {
        Some(String::from_str("hu-HU"))
    } else if str_eq(name, "040F") {
        Some(String::from_str("is-IS"))
    } else if str_eq(name, "0410") {
        Some(String::from_str("it-IT"))
    } else if str_eq(name, "0411") {
        Some(String::from_str("ja-JP"))
    } else if str_eq(name, "0412") {
        Some(String::from_str("ko-KR"))
    } else if str_eq(name, "0413") {
        Some(String::from_str("nl-NL"))
    } else if str_eq(name, "0414") {
        Some(String::from_str("nb-NO"))
    } else if str_eq(name, "0415") {
        Some(String::from_str("pl-PL"))
    } else if str_eq(name, "0416") {
        Some(String::from_str("pt-BR"))
    } else if str_eq(name, "0417") {
        Some(String::from_str("rm-CH"))
    } else if str_eq(name, "0418") {
        Some(String::from_str("ro-RO"))
    } else if str_eq(name, "0419") {
        Some(String::from_str("ru-RU"))
    } else if str_eq(name, "041A") {
        Some(String::from_str("hr-HR"))
    } else if str_eq(name, "041B") {
        Some(String::from_str("sk-SK"))
    } else if str_eq(name, "041C") {
        Some(String::from_str("sq-AL"))
    } else if str_eq(name, "041D") {
        Some(String::from_str("sv-SE"))
    } else if str_eq(name, "041E") {
        Some(String::from_str("th-TH"))
    } else if str_eq(name, "041F") {
        Some(String::from_str("tr-TR"))
    } else if str_eq(name, "0420") {
        Some(String::from_str("ur-PK"))
    } else if str_eq(name, "0421") {
        Some(String::from_str("id-ID"))
    } else if str_eq(name, "0422") {
        Some(String::from_str("uk-UA"))
    } else if str_eq(name, "0423") {
        Some(String::from_str("be-BY"))
    } else if str_eq(name, "0424") {
        Some(String::from_str("sl-SI"))
    } else if str_eq(name, "0425") {
        Some(String::from_str("et-EE"))
    } else if str_eq(name, "0426") {
        Some(String::from_str("lv-LV"))
    } else if str_eq(name, "0427") {
        Some(String::from_str("lt-LT"))
    } else if str_eq(name, "0428") {
        Some(String::from_str("tg-Cyrl-TJ"))
    } else if str_eq(name, "0429") {
        Some(String::from_str("fa-IR"))
    } else if str_eq(name, "042A") {
        Some(String::from_str("vi-VN"))
    } else if str_eq(name, "042B") {
        Some(String::from_str("hy-AM"))
    } else if str_eq(name, "042C") {
        Some(String::from_str("az-Latn-AZ"))
    } else if str_eq(name, "042D") {
        Some(String::from_str("eu-ES"))
    } else if str_eq(name, "042E") {
        Some(String::from_str("hsb-DE"))
    } else if str_eq(name, "042F") {
        Some(String::from_str("mk-MK"))
    } else if str_eq(name, "0432") {
        Some(String::from_str("tn-ZA"))
    } else if str_eq(name, "0434") {
        Some(String::from_str("xh-ZA"))
    } else if str_eq(name, "0435") {
        Some(String::from_str("zu-ZA"))
    } else if str_eq(name, "0436") {
        Some(String::from_str("af-ZA"))
    } else if str_eq(name, "0437") {
        Some(String::from_str("ka-GE"))
    } else if str_eq(name, "0438") {
        Some(String::from_str("fo-FO"))
    } else if str_eq(name, "0439") {
        Some(String::from_str("hi-IN"))
    } else if str_eq(name, "043A") {
        Some(String::from_str("mt-MT"))
    } else if str_eq(name, "043B") {
        Some(String::from_str("se-NO"))
    } else if str_eq(name, "043e") {
        Some(String::from_str("ms-MY"))
    } else if str_eq(name, "043F") {
        Some(String::from_str("kk-KZ"))
    } else if str_eq(name, "0440") {
        Some(String::from_str("ky-KG"))
    } else if str_eq(name, "0441") {
        Some(String::from_str("sw-KE"))
    } else if str_eq(name, "0442") {
        Some(String::from_str("tk-TM"))
    } else if str_eq(name, "0443") {
        Some(String::from_str("uz-Latn-UZ"))
    } else if str_eq(name, "0444") {
        Some(String::from_str("tt-RU"))
    } else if str_eq(name, "0445") {
        Some(String::from_str("bn-IN"))
    } else if str_eq(name, "0446") {
        Some(String::from_str("pa-IN"))
    } else if str_eq(name, "0447") {
        Some(String::from_str("gu-IN"))
    } else if str_eq(name, "0448") {
        Some(String::from_str("or-IN"))
    } else if str_eq(name, "0449") {
        Some(String::from_str("ta-IN"))
    } else if str_eq(name, "044A") {
        Some(String::from_str("te-IN"))
    } else if str_eq(name, "044B") {
        Some(String::from_str("kn-IN"))
    } else if str_eq(name, "044C") {
        Some(String::from_str("ml-IN"))
    } else if str_eq(name, "044D") {
        Some(String::from_str("as-IN"))
    } else if str_eq(name, "044E") {
        Some(String::from_str("mr-IN"))
    } else if str_eq(name, "044F") {
        Some(String::from_str("sa-IN"))
    } else if str_eq(name, "0450") {
        Some(String::from_str("mn-MN"))
    } else if str_eq(name, "0451") {
        Some(String::from_str("bo-CN"))
    } else if str_eq(name, "0452") {
        Some(String::from_str("cy-GB"))
    } else if str_eq(name, "0453") {
        Some(String::from_str("km-KH"))
    } else if str_eq(name, "0454") {
        Some(String::from_str("lo-LA"))
    } else if str_eq(name, "0456") {
        Some(String::from_str("gl-ES"))
    } else if str_eq(name, "0457") {
        Some(String::from_str("kok-IN"))
    } else if str_eq(name, "0459") {
        Some(String::from_str("sd-Deva-IN"))
    } else if str_eq(name, "045A") {
        Some(String::from_str("syr-SY"))
    } else if str_eq(name, "045B") {
        Some(String::from_str("si-LK"))
    } else if str_eq(name, "045C") {
        Some(String::from_str("chr-Cher-US"))
    } else if str_eq(name, "045D") {
        Some(String::from_str("iu-Cans-CA"))
    } else if str_eq(name, "045E") {
        Some(String::from_str("am-ET"))
    } else if str_eq(name, "0461") {
        Some(String::from_str("ne-NP"))
    } else if str_eq(name, "0462") {
        Some(String::from_str("fy-NL"))
    } else if str_eq(name, "0463") {
        Some(String::from_str("ps-AF"))
    } else if str_eq(name, "0464") {
        Some(String::from_str("fil-PH"))
    } else if str_eq(name, "0465") {
        Some(String::from_str("dv-MV"))
    } else if str_eq(name, "0468") {
        Some(String::from_str("ha-Latn-NG"))
    } else if str_eq(name, "046A") {
        Some(String::from_str("yo-NG"))
    } else if str_eq(name, "046B") {
        Some(String::from_str("quz-BO"))
    } else if str_eq(name, "046C") {
        Some(String::from_str("nso-ZA"))
    } else if str_eq(name, "046D") {
        Some(String::from_str("ba-RU"))
    } else if str_eq(name, "046E") {
        Some(String::from_str("lb-LU"))
    } else if str_eq(name, "046F") {
        Some(String::from_str("kl-GL"))
    } else if str_eq(name, "0470") {
        Some(String::from_str("ig-NG"))
    } else if str_eq(name, "0473") {
        Some(String::from_str("ti-ET"))
    } else if str_eq(name, "0475") {
        Some(String::from_str("haw-US"))
    } else if str_eq(name, "0478") {
        Some(String::from_str("ii-CN"))
    } else if str_eq(name, "047A") {
        Some(String::from_str("arn-CL"))
    } else if str_eq(name, "047C") {
        Some(String::from_str("moh-CA"))
    } else if str_eq(name, "047E") {
        Some(String::from_str("br-FR"))
    } else if str_eq(name, "0480") {
        Some(String::from_str("ug-CN"))
    } else if str_eq(name, "0481") {
        Some(String::from_str("mi-NZ"))
    } else if str_eq(name, "0482") {
        Some(String::from_str("oc-FR"))
    } else if str_eq(name, "0483") {
        Some(String::from_str("co-FR"))
    } else if str_eq(name, "0484") {
        Some(String::from_str("gsw-FR"))
    } else if str_eq(name, "0485") {
        Some(String::from_str("sah-RU"))
    } else if str_eq(name, "0486") {
        Some(String::from_str("quc-Latn-GT"))
    } else if str_eq(name, "0487") {
        Some(String::from_str("rw-RW"))
    } else if str_eq(name, "0488") {
        Some(String::from_str("wo-SN"))
    } else if str_eq(name, "048C") {
        Some(String::from_str("prs-AF"))
    } else if str_eq(name, "0491") {
        Some(String::from_str("gd-GB"))
    } else if str_eq(name, "0492") {
        Some(String::from_str("ku-Arab-IQ"))
    } else if str_eq(name, "0801") {
        Some(String::from_str("ar-IQ"))
    } else if str_eq(name, "0803") {
        Some(String::from_str("ca-ES-valencia"))
    } else if str_eq(name, "0804") {
        Some(String::from_str("zh-CN"))
    } else if str_eq(name, "0807") {
        Some(String::from_str("de-CH"))
    } else if str_eq(name, "0809") {
        Some(String::from_str("en-GB"))
    } else if str_eq(name, "080A") {
        Some(String::from_str("es-MX"))
    } else if str_eq(name, "080C") {
        Some(String::from_str("fr-BE"))
    } else if str_eq(name, "0810") {
        Some(String::from_str("it-CH"))
    } else if str_eq(name, "0813") {
        Some(String::from_str("nl-BE"))
    } else if str_eq(name, "0814") {
        Some(String::from_str("nn-NO"))
    } else if str_eq(name, "0816") {
        Some(String::from_str("pt-PT"))
    } else if str_eq(name, "081A") {
        Some(String::from_str("sr-Latn-CS"))
    } else if str_eq(name, "081D") {
        Some(String::from_str("sv-FI"))
    } else if str_eq(name, "0820") {
        Some(String::from_str("ur-IN"))
    } else if str_eq(name, "082C") {
        Some(String::from_str("az-Cyrl-AZ"))
    } else if str_eq(name, "082E") {
        Some(String::from_str("dsb-DE"))
    } else if str_eq(name, "0832") {
        Some(String::from_str("tn-BW"))
    } else if str_eq(name, "083B") {
        Some(String::from_str("se-SE"))
    } else if str_eq(name, "083C") {
        Some(String::from_str("ga-IE"))
    } else if str_eq(name, "083E") {
        Some(String::from_str("ms-BN"))
    } else if str_eq(name, "0843") {
        Some(String::from_str("uz-Cyrl-UZ"))
    } else if str_eq(name, "0845") {
        Some(String::from_str("bn-BD"))
    } else if str_eq(name, "0846") {
        Some(String::from_str("pa-Arab-PK"))
    } else if str_eq(name, "0849") {
        Some(String::from_str("ta-LK"))
    } else if str_eq(name, "0850") {
        Some(String::from_str("mn-Mong-CN"))
    } else if str_eq(name, "0859") {
        Some(String::from_str("sd-Arab-PK"))
    } else if str_eq(name, "085D") {
        Some(String::from_str("iu-Latn-CA"))
    } else if str_eq(name, "085F") {
        Some(String::from_str("tzm-Latn-DZ"))
    } else if str_eq(name, "0867") {
        Some(String::from_str("ff-Latn-SN"))
    } else if str_eq(name, "086B") {
        Some(String::from_str("quz-EC"))
    } else if str_eq(name, "0873") {
        Some(String::from_str("ti-ER"))
    } else if str_eq(name, "0873") {
        Some(String::from_str("ti-ER"))
    } else if str_eq(name, "0C01") {
        Some(String::from_str("ar-EG"))
    } else if str_eq(name, "0C04") {
        Some(String::from_str("zh-HK"))
    } else if str_eq(name, "0C07") {
        Some(String::from_str("de-AT"))
    } else if str_eq(name, "0C09") {
        Some(String::from_str("en-AU"))
    } else if str_eq(name, "0C0A") {
        Some(String::from_str("es-ES"))
    } else if str_eq(name, "0C0C") {
        Some(String::from_str("fr-CA"))
    } else if str_eq(name, "0C1A") {
        Some(String::from_str("sr-Cyrl-CS"))
    } else if str_eq(name, "0C3B") {
        Some(String::from_str("se-FI"))
    } else if str_eq(name, "0C6B") {
        Some(String::from_str("quz-PE"))
    } else if str_eq(name, "1001") {
        Some(String::from_str("ar-LY"))
    } else if str_eq(name, "1004") {
        Some(String::from_str("zh-SG"))
    } else if str_eq(name, "1007") {
        Some(String::from_str("de-LU"))
    } else if str_eq(name, "1009") {
        Some(String::from_str("en-CA"))
    } else if str_eq(name, "100A") {
        Some(String::from_str("es-GT"))
    } else if str_eq(name, "100C") {
        Some(String::from_str("fr-CH"))
    } else if str_eq(name, "101A") {
        Some(String::from_str("hr-BA"))
    } else if str_eq(name, "103B") {
        Some(String::from_str("smj-NO"))
    } else if str_eq(name, "105F") {
        Some(String::from_str("tzm-Tfng-MA"))
    } else if str_eq(name, "1401") {
        Some(String::from_str("ar-DZ"))
    } else if str_eq(name, "1404") {
        Some(String::from_str("zh-MO"))
    } else if str_eq(name, "1407") {
        Some(String::from_str("de-LI"))
    } else if str_eq(name, "1409") {
        Some(String::from_str("en-NZ"))
    } else if str_eq(name, "140A") {
        Some(String::from_str("es-CR"))
    } else if str_eq(name, "140C") {
        Some(String::from_str("fr-LU"))
    } else if str_eq(name, "141A") {
        Some(String::from_str("bs-Latn-BA"))
    } else if str_eq(name, "143B") {
        Some(String::from_str("smj-SE"))
    } else if str_eq(name, "1801") {
        Some(String::from_str("ar-MA"))
    } else if str_eq(name, "1809") {
        Some(String::from_str("en-IE"))
    } else if str_eq(name, "180A") {
        Some(String::from_str("es-PA"))
    } else if str_eq(name, "180C") {
        Some(String::from_str("fr-MC"))
    } else if str_eq(name, "181A") {
        Some(String::from_str("sr-Latn-BA"))
    } else if str_eq(name, "183B") {
        Some(String::from_str("sma-NO"))
    } else if str_eq(name, "1C01") {
        Some(String::from_str("ar-TN"))
    } else if str_eq(name, "1c09") {
        Some(String::from_str("en-ZA"))
    } else if str_eq(name, "1C0A") {
        Some(String::from_str("es-DO"))
    } else if str_eq(name, "1C1A") {
        Some(String::from_str("sr-Cyrl-BA"))
    } else if str_eq(name, "1C3B") {
        Some(String::from_str("sma-SE"))
    } else if str_eq(name, "2001") {
        Some(String::from_str("ar-OM"))
    } else if str_eq(name, "2009") {
        Some(String::from_str("en-JM"))
    } else if str_eq(name, "200A") {
        Some(String::from_str("es-VE"))
    } else if str_eq(name, "201A") {
        Some(String::from_str("bs-Cyrl-BA"))
    } else if str_eq(name, "203B") {
        Some(String::from_str("sms-FI"))
    } else if str_eq(name, "2401") {
        Some(String::from_str("ar-YE"))
    } else if str_eq(name, "2409") {
        Some(String::from_str("en-029"))
    } else if str_eq(name, "240A") {
        Some(String::from_str("es-CO"))
    } else if str_eq(name, "241A") {
        Some(String::from_str("sr-Latn-RS"))
    } else if str_eq(name, "243B") {
        Some(String::from_str("smn-FI"))
    } else if str_eq(name, "2801") {
        Some(String::from_str("ar-SY"))
    } else if str_eq(name, "2809") {
        Some(String::from_str("en-BZ"))
    } else if str_eq(name, "280A") {
        Some(String::from_str("es-PE"))
    } else if str_eq(name, "281A") {
        Some(String::from_str("sr-Cyrl-RS"))
    } else if str_eq(name, "2C01") {
        Some(String::from_str("ar-JO"))
    } else if str_eq(name, "2C09") {
        Some(String::from_str("en-TT"))
    } else if str_eq(name, "2C0A") {
        Some(String::from_str("es-AR"))
    } else if str_eq(name, "2C1A") {
        Some(String::from_str("sr-Latn-ME"))
    } else if str_eq(name, "3001") {
        Some(String::from_str("ar-LB"))
    } else if str_eq(name, "3009") {
        Some(String::from_str("en-ZW"))
    } else if str_eq(name, "300A") {
        Some(String::from_str("es-EC"))
    } else if str_eq(name, "301A") {
        Some(String::from_str("sr-Cyrl-ME"))
    } else if str_eq(name, "3401") {
        Some(String::from_str("ar-KW"))
    } else if str_eq(name, "3409") {
        Some(String::from_str("en-PH"))
    } else if str_eq(name, "340A") {
        Some(String::from_str("es-CL"))
    } else if str_eq(name, "3801") {
        Some(String::from_str("ar-AE"))
    } else if str_eq(name, "380A") {
        Some(String::from_str("es-UY"))
    } else if str_eq(name, "3C01") {
        Some(String::from_str("ar-BH"))
    } else if str_eq(name, "3C0A") {
        Some(String::from_str("es-PY"))
    } else if str_eq(name, "4001") {
        Some(String::from_str("ar-QA"))
    } else if str_eq(name, "4009") {
        Some(String::from_str("en-IN"))
    } else if str_eq(name, "400A") {
        Some(String::from_str("es-BO"))
    } else if str_eq(name, "4409") {
        Some(String::from_str("en-MY"))
    } else if str_eq(name, "440A") {
        Some(String::from_str("es-SV"))
    } else if str_eq(name, "4809") {
        Some(String::from_str("en-SG"))
    } else if str_eq(name, "480A") {
        Some(String::from_str("es-HN"))
    } else if str_eq(name, "4C0A") {
        Some(String::from_str("es-NI"))
    } else if str_eq(name, "500A") {
        Some(String::from_str("es-PR"))
    } else if str_eq(name, "540A") {
        Some(String::from_str("es-US"))
    } else if str_eq(name, "7C04") {
        Some(String::from_str("zh-CHT"))
    } else {
        None
    }
}

} // verus!
