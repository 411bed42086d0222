//! Publisher names for the licensee codes of the cartridge header.
use vstd::prelude::*;

verus! {

/// The publisher that the old licensee code (0x014B) names; 0x33 means
/// that the new licensee code holds the publisher.
pub open spec fn old_licensee_table(code: u8) -> Option<&'static str> {
    match code {
        0x00u8 => Some("None"),
        0x01u8 => Some("Nintendo"),
        0x08u8 => Some("Capcom"),
        0x09u8 => Some("HotB"),
        0x0Au8 => Some("Jaleco"),
        0x0Bu8 => Some("CoconutsJapan"),
        0x0Cu8 => Some("EliteSystems"),
        0x13u8 => Some("EaElectronicArts"),
        0x18u8 => Some("HudsonSoft"),
        0x19u8 => Some("ItcEntertainment"),
        0x1Au8 => Some("Yanoman"),
        0x1Du8 => Some("JapanClary"),
        0x1Fu8 => Some("VirginGamesLtd3"),
        0x24u8 => Some("PcmComplete"),
        0x25u8 => Some("SanX"),
        0x28u8 => Some("Kemco"),
        0x29u8 => Some("SetaCorporation"),
        0x30u8 => Some("Infogrames5"),
        0x31u8 => Some("Nintendo2"),
        0x32u8 => Some("Bandai"),
        0x33u8 => Some("NewLicenseCode"),
        0x34u8 => Some("Konami"),
        0x35u8 => Some("HectorSoft"),
        0x38u8 => Some("Capcom2"),
        0x39u8 => Some("Banpresto"),
        0x3Cu8 => Some("EntertainmentInteractiveStub"),
        0x3Eu8 => Some("Gremlin"),
        0x41u8 => Some("UbiSoft1"),
        0x42u8 => Some("Atlus"),
        0x44u8 => Some("MalibuInteractive"),
        0x46u8 => Some("Angel"),
        0x47u8 => Some("SpectrumHoloByte"),
        0x49u8 => Some("Irem"),
        0x4Au8 => Some("VirginGamesLtd3_2"),
        0x4Du8 => Some("MalibuInteractive2"),
        0x4Fu8 => Some("UsGold"),
        0x50u8 => Some("Absolute"),
        0x51u8 => Some("AcclaimEntertainment"),
        0x52u8 => Some("Activision"),
        0x53u8 => Some("SammyUsaCorporation"),
        0x54u8 => Some("GameTek"),
        0x55u8 => Some("ParkPlace13"),
        0x56u8 => Some("Ljn"),
        0x57u8 => Some("Matchbox"),
        0x59u8 => Some("MiltonBradleyCompany"),
        0x5Au8 => Some("Mindscape"),
        0x5Bu8 => Some("Romstar"),
        0x5Cu8 => Some("NaxatSoft14"),
        0x5Du8 => Some("Tradewest"),
        0x60u8 => Some("TitusInteractive"),
        0x61u8 => Some("VirginGamesLtd3_3"),
        0x67u8 => Some("OceanSoftware"),
        0x69u8 => Some("EaElectronicArts2"),
        0x6Eu8 => Some("EliteSystems2"),
        0x6Fu8 => Some("ElectroBrain"),
        0x70u8 => Some("Infogrames5_2"),
        0x71u8 => Some("InterplayEntertainment"),
        0x72u8 => Some("Broderbund"),
        0x73u8 => Some("SculpturedSoftware6"),
        0x75u8 => Some("TheSalesCurveLimited7"),
        0x78u8 => Some("Thq"),
        0x79u8 => Some("Accolade15"),
        0x7Au8 => Some("TriffixEntertainment"),
        0x7Cu8 => Some("MicroProse"),
        0x7Fu8 => Some("Kemco2"),
        0x80u8 => Some("MisawaEntertainment"),
        0x83u8 => Some("LozcG"),
        0x86u8 => Some("TokumaShoten"),
        0x8Bu8 => Some("BulletProofSoftware2"),
        0x8Cu8 => Some("VicTokaiCorp16"),
        0x8Eu8 => Some("ApeInc17"),
        0x8Fu8 => Some("IMax18"),
        0x91u8 => Some("ChunsoftCo8"),
        0x92u8 => Some("VideoSystem"),
        0x93u8 => Some("TsubarayaProductions"),
        0x95u8 => Some("Varie"),
        0x96u8 => Some("Yonezawa19SPal"),
        0x97u8 => Some("Kemco3"),
        0x99u8 => Some("Arc"),
        0x9Au8 => Some("NihonBussan"),
        0x9Bu8 => Some("Tecmo"),
        0x9Cu8 => Some("Imagineer"),
        0x9Du8 => Some("Banpresto2"),
        0x9Fu8 => Some("Nova"),
        0xA1u8 => Some("HoriElectric"),
        0xA2u8 => Some("Bandai2"),
        0xA4u8 => Some("Konami2"),
        0xA6u8 => Some("Kawada"),
        0xA7u8 => Some("Takara"),
        0xA9u8 => Some("TechnosJapan"),
        0xAAu8 => Some("Broderbund2"),
        0xACu8 => Some("ToeiAnimation"),
        0xADu8 => Some("Toho"),
        0xAFu8 => Some("Namco"),
        0xB0u8 => Some("AcclaimEntertainment2"),
        0xB1u8 => Some("AsciiCorporationOrNexsoft"),
        0xB2u8 => Some("Bandai3"),
        0xB4u8 => Some("SquareEnix"),
        0xB6u8 => Some("HalLaboratory"),
        0xB7u8 => Some("Snk"),
        0xB9u8 => Some("PonyCanyon"),
        0xBAu8 => Some("CultureBrain"),
        0xBBu8 => Some("Sunsoft"),
        0xBDu8 => Some("SonyImagesoft"),
        0xBFu8 => Some("SammyCorporation"),
        0xC0u8 => Some("Taito"),
        0xC2u8 => Some("Kemco4"),
        0xC3u8 => Some("Square"),
        0xC4u8 => Some("TokumaShoten2"),
        0xC5u8 => Some("DataEast"),
        0xC6u8 => Some("TonkinHouse"),
        0xC8u8 => Some("Koei"),
        0xC9u8 => Some("Ufl"),
        0xCAu8 => Some("UltraGames"),
        0xCBu8 => Some("VapInc"),
        0xCCu8 => Some("UseCorporation"),
        0xCDu8 => Some("Meldac"),
        0xCEu8 => Some("PonyCanyon2"),
        0xCFu8 => Some("Angel2"),
        0xD0u8 => Some("Taito2"),
        0xD1u8 => Some("SofelSoftwareEngineeringLab"),
        0xD2u8 => Some("Quest"),
        0xD3u8 => Some("SigmaEnterprises"),
        0xD4u8 => Some("AskKodanshaCo"),
        0xD6u8 => Some("NaxatSoft14_2"),
        0xD7u8 => Some("CopyaSystem"),
        0xD9u8 => Some("Banpresto3"),
        0xDAu8 => Some("Tomy"),
        0xDBu8 => Some("Ljn2"),
        0xDDu8 => Some("NipponComputerSystems"),
        0xDEu8 => Some("HumanEnt"),
        0xDFu8 => Some("Altron"),
        0xE0u8 => Some("Jaleco2"),
        0xE1u8 => Some("TowaChiki"),
        0xE2u8 => Some("YutakaNeedsMoreInfo"),
        0xE3u8 => Some("Varie2"),
        0xE5u8 => Some("Epoch"),
        0xE7u8 => Some("Athena"),
        0xE8u8 => Some("AsmikAceEntertainment"),
        0xE9u8 => Some("Natsume"),
        0xEAu8 => Some("KingRecords"),
        0xEBu8 => Some("Atlus2"),
        0xECu8 => Some("EpicSonyRecords"),
        0xEEu8 => Some("Igs"),
        0xF0u8 => Some("AWave"),
        0xF3u8 => Some("ExtremeEntertainment"),
        0xFFu8 => Some("Ljn3"),
        _ => None,
    }
}

/// The publisher that the two ASCII characters of the new licensee code
/// (0x0144-0x0145) name.
pub open spec fn new_licensee_table(code: (u8, u8)) -> Option<&'static str> {
    match code {
        (0x30u8, 0x30u8) => Some("None"), // "00"
        (0x30u8, 0x31u8) => Some("NintendoResearchAndDevelopment1"), // "01"
        (0x30u8, 0x38u8) => Some("Capcom"), // "08"
        (0x31u8, 0x33u8) => Some("EaElectronicArts"), // "13"
        (0x31u8, 0x38u8) => Some("HudsonSoft"), // "18"
        (0x31u8, 0x39u8) => Some("Bai"), // "19"
        (0x32u8, 0x30u8) => Some("Kss"), // "20"
        (0x32u8, 0x32u8) => Some("PlanningOfficeWada"), // "22"
        (0x32u8, 0x34u8) => Some("PcmComplete"), // "24"
        (0x32u8, 0x35u8) => Some("SanX"), // "25"
        (0x32u8, 0x38u8) => Some("Kemco"), // "28"
        (0x32u8, 0x39u8) => Some("SetaCorporation"), // "29"
        (0x33u8, 0x30u8) => Some("Viacom"), // "30"
        (0x33u8, 0x31u8) => Some("Nintendo"), // "31"
        (0x33u8, 0x32u8) => Some("Bandai"), // "32"
        (0x33u8, 0x33u8) => Some("OceanSoftwareAcclaimEntertainment"), // "33"
        (0x33u8, 0x34u8) => Some("Konami"), // "34"
        (0x33u8, 0x35u8) => Some("HectorSoft"), // "35"
        (0x33u8, 0x37u8) => Some("Taito"), // "37"
        (0x33u8, 0x38u8) => Some("HudsonSoft2"), // "38"
        (0x33u8, 0x39u8) => Some("Banpresto"), // "39"
        (0x34u8, 0x31u8) => Some("UbiSoft1"), // "41"
        (0x34u8, 0x32u8) => Some("Atlus"), // "42"
        (0x34u8, 0x34u8) => Some("MalibuInteractive"), // "44"
        (0x34u8, 0x36u8) => Some("Angel"), // "46"
        (0x34u8, 0x37u8) => Some("BulletProofSoftware2"), // "47"
        (0x34u8, 0x39u8) => Some("Irem"), // "49"
        (0x35u8, 0x30u8) => Some("Absolute"), // "50"
        (0x35u8, 0x31u8) => Some("AcclaimEntertainment"), // "51"
        (0x35u8, 0x32u8) => Some("Activision"), // "52"
        (0x35u8, 0x33u8) => Some("SammyUsaCorporation"), // "53"
        (0x35u8, 0x34u8) => Some("Konami2"), // "54"
        (0x35u8, 0x35u8) => Some("HiTechExpressions"), // "55"
        (0x35u8, 0x36u8) => Some("Ljn"), // "56"
        (0x35u8, 0x37u8) => Some("Matchbox"), // "57"
        (0x35u8, 0x38u8) => Some("Mattel"), // "58"
        (0x35u8, 0x39u8) => Some("MiltonBradleyCompany"), // "59"
        (0x36u8, 0x30u8) => Some("TitusInteractive"), // "60"
        (0x36u8, 0x31u8) => Some("VirginGamesLtd3"), // "61"
        (0x36u8, 0x34u8) => Some("LucasfilmGames4"), // "64"
        (0x36u8, 0x37u8) => Some("OceanSoftware"), // "67"
        (0x36u8, 0x39u8) => Some("EaElectronicArts2"), // "69"
        (0x37u8, 0x30u8) => Some("Infogrames5"), // "70"
        (0x37u8, 0x31u8) => Some("InterplayEntertainment"), // "71"
        (0x37u8, 0x32u8) => Some("Broderbund"), // "72"
        (0x37u8, 0x33u8) => Some("SculpturedSoftware6"), // "73"
        (0x37u8, 0x35u8) => Some("TheSalesCurveLimited7"), // "75"
        (0x37u8, 0x38u8) => Some("Thq"), // "78"
        (0x37u8, 0x39u8) => Some("Accolade8"), // "79"
        (0x38u8, 0x30u8) => Some("MisawaEntertainment"), // "80"
        (0x38u8, 0x33u8) => Some("LozcG"), // "83"
        (0x38u8, 0x36u8) => Some("TokumaShoten"), // "86"
        (0x38u8, 0x37u8) => Some("TsukudaOriginal"), // "87"
        (0x39u8, 0x31u8) => Some("ChunsoftCo9"), // "91"
        (0x39u8, 0x32u8) => Some("VideoSystem"), // "92"
        (0x39u8, 0x33u8) => Some("OceanSoftwareAcclaimEntertainment2"), // "93"
        (0x39u8, 0x35u8) => Some("Varie"), // "95"
        (0x39u8, 0x36u8) => Some("Yonezawa10SPal"), // "96"
        (0x39u8, 0x37u8) => Some("Kaneko"), // "97"
        (0x39u8, 0x39u8) => Some("PackInVideo"), // "99"
        (0x39u8, 0x48u8) => Some("BottomUp"), // "9H"
        (0x41u8, 0x34u8) => Some("KonamiYuGiOh"), // "A4"
        (0x42u8, 0x4Cu8) => Some("Mto"), // "BL"
        (0x44u8, 0x4Bu8) => Some("Kodansha"), // "DK"
        _ => None,
    }
}

/// Looks up the old licensee code; unknown codes name no publisher.
pub fn old_licensee_name(code: u8) -> (r: Option<&'static str>)
    ensures
        r == old_licensee_table(code),
{
    match code {
        0x00 => Some("None"),
        0x01 => Some("Nintendo"),
        0x08 => Some("Capcom"),
        0x09 => Some("HotB"),
        0x0A => Some("Jaleco"),
        0x0B => Some("CoconutsJapan"),
        0x0C => Some("EliteSystems"),
        0x13 => Some("EaElectronicArts"),
        0x18 => Some("HudsonSoft"),
        0x19 => Some("ItcEntertainment"),
        0x1A => Some("Yanoman"),
        0x1D => Some("JapanClary"),
        0x1F => Some("VirginGamesLtd3"),
        0x24 => Some("PcmComplete"),
        0x25 => Some("SanX"),
        0x28 => Some("Kemco"),
        0x29 => Some("SetaCorporation"),
        0x30 => Some("Infogrames5"),
        0x31 => Some("Nintendo2"),
        0x32 => Some("Bandai"),
        0x33 => Some("NewLicenseCode"),
        0x34 => Some("Konami"),
        0x35 => Some("HectorSoft"),
        0x38 => Some("Capcom2"),
        0x39 => Some("Banpresto"),
        0x3C => Some("EntertainmentInteractiveStub"),
        0x3E => Some("Gremlin"),
        0x41 => Some("UbiSoft1"),
        0x42 => Some("Atlus"),
        0x44 => Some("MalibuInteractive"),
        0x46 => Some("Angel"),
        0x47 => Some("SpectrumHoloByte"),
        0x49 => Some("Irem"),
        0x4A => Some("VirginGamesLtd3_2"),
        0x4D => Some("MalibuInteractive2"),
        0x4F => Some("UsGold"),
        0x50 => Some("Absolute"),
        0x51 => Some("AcclaimEntertainment"),
        0x52 => Some("Activision"),
        0x53 => Some("SammyUsaCorporation"),
        0x54 => Some("GameTek"),
        0x55 => Some("ParkPlace13"),
        0x56 => Some("Ljn"),
        0x57 => Some("Matchbox"),
        0x59 => Some("MiltonBradleyCompany"),
        0x5A => Some("Mindscape"),
        0x5B => Some("Romstar"),
        0x5C => Some("NaxatSoft14"),
        0x5D => Some("Tradewest"),
        0x60 => Some("TitusInteractive"),
        0x61 => Some("VirginGamesLtd3_3"),
        0x67 => Some("OceanSoftware"),
        0x69 => Some("EaElectronicArts2"),
        0x6E => Some("EliteSystems2"),
        0x6F => Some("ElectroBrain"),
        0x70 => Some("Infogrames5_2"),
        0x71 => Some("InterplayEntertainment"),
        0x72 => Some("Broderbund"),
        0x73 => Some("SculpturedSoftware6"),
        0x75 => Some("TheSalesCurveLimited7"),
        0x78 => Some("Thq"),
        0x79 => Some("Accolade15"),
        0x7A => Some("TriffixEntertainment"),
        0x7C => Some("MicroProse"),
        0x7F => Some("Kemco2"),
        0x80 => Some("MisawaEntertainment"),
        0x83 => Some("LozcG"),
        0x86 => Some("TokumaShoten"),
        0x8B => Some("BulletProofSoftware2"),
        0x8C => Some("VicTokaiCorp16"),
        0x8E => Some("ApeInc17"),
        0x8F => Some("IMax18"),
        0x91 => Some("ChunsoftCo8"),
        0x92 => Some("VideoSystem"),
        0x93 => Some("TsubarayaProductions"),
        0x95 => Some("Varie"),
        0x96 => Some("Yonezawa19SPal"),
        0x97 => Some("Kemco3"),
        0x99 => Some("Arc"),
        0x9A => Some("NihonBussan"),
        0x9B => Some("Tecmo"),
        0x9C => Some("Imagineer"),
        0x9D => Some("Banpresto2"),
        0x9F => Some("Nova"),
        0xA1 => Some("HoriElectric"),
        0xA2 => Some("Bandai2"),
        0xA4 => Some("Konami2"),
        0xA6 => Some("Kawada"),
        0xA7 => Some("Takara"),
        0xA9 => Some("TechnosJapan"),
        0xAA => Some("Broderbund2"),
        0xAC => Some("ToeiAnimation"),
        0xAD => Some("Toho"),
        0xAF => Some("Namco"),
        0xB0 => Some("AcclaimEntertainment2"),
        0xB1 => Some("AsciiCorporationOrNexsoft"),
        0xB2 => Some("Bandai3"),
        0xB4 => Some("SquareEnix"),
        0xB6 => Some("HalLaboratory"),
        0xB7 => Some("Snk"),
        0xB9 => Some("PonyCanyon"),
        0xBA => Some("CultureBrain"),
        0xBB => Some("Sunsoft"),
        0xBD => Some("SonyImagesoft"),
        0xBF => Some("SammyCorporation"),
        0xC0 => Some("Taito"),
        0xC2 => Some("Kemco4"),
        0xC3 => Some("Square"),
        0xC4 => Some("TokumaShoten2"),
        0xC5 => Some("DataEast"),
        0xC6 => Some("TonkinHouse"),
        0xC8 => Some("Koei"),
        0xC9 => Some("Ufl"),
        0xCA => Some("UltraGames"),
        0xCB => Some("VapInc"),
        0xCC => Some("UseCorporation"),
        0xCD => Some("Meldac"),
        0xCE => Some("PonyCanyon2"),
        0xCF => Some("Angel2"),
        0xD0 => Some("Taito2"),
        0xD1 => Some("SofelSoftwareEngineeringLab"),
        0xD2 => Some("Quest"),
        0xD3 => Some("SigmaEnterprises"),
        0xD4 => Some("AskKodanshaCo"),
        0xD6 => Some("NaxatSoft14_2"),
        0xD7 => Some("CopyaSystem"),
        0xD9 => Some("Banpresto3"),
        0xDA => Some("Tomy"),
        0xDB => Some("Ljn2"),
        0xDD => Some("NipponComputerSystems"),
        0xDE => Some("HumanEnt"),
        0xDF => Some("Altron"),
        0xE0 => Some("Jaleco2"),
        0xE1 => Some("TowaChiki"),
        0xE2 => Some("YutakaNeedsMoreInfo"),
        0xE3 => Some("Varie2"),
        0xE5 => Some("Epoch"),
        0xE7 => Some("Athena"),
        0xE8 => Some("AsmikAceEntertainment"),
        0xE9 => Some("Natsume"),
        0xEA => Some("KingRecords"),
        0xEB => Some("Atlus2"),
        0xEC => Some("EpicSonyRecords"),
        0xEE => Some("Igs"),
        0xF0 => Some("AWave"),
        0xF3 => Some("ExtremeEntertainment"),
        0xFF => Some("Ljn3"),
        _ => None,
    }
}

/// Looks up the new licensee code; unknown codes name no publisher.
pub fn new_licensee_name(code: (u8, u8)) -> (r: Option<&'static str>)
    ensures
        r == new_licensee_table(code),
{
    match code {
        (0x30, 0x30) => Some("None"), // "00"
        (0x30, 0x31) => Some("NintendoResearchAndDevelopment1"), // "01"
        (0x30, 0x38) => Some("Capcom"), // "08"
        (0x31, 0x33) => Some("EaElectronicArts"), // "13"
        (0x31, 0x38) => Some("HudsonSoft"), // "18"
        (0x31, 0x39) => Some("Bai"), // "19"
        (0x32, 0x30) => Some("Kss"), // "20"
        (0x32, 0x32) => Some("PlanningOfficeWada"), // "22"
        (0x32, 0x34) => Some("PcmComplete"), // "24"
        (0x32, 0x35) => Some("SanX"), // "25"
        (0x32, 0x38) => Some("Kemco"), // "28"
        (0x32, 0x39) => Some("SetaCorporation"), // "29"
        (0x33, 0x30) => Some("Viacom"), // "30"
        (0x33, 0x31) => Some("Nintendo"), // "31"
        (0x33, 0x32) => Some("Bandai"), // "32"
        (0x33, 0x33) => Some("OceanSoftwareAcclaimEntertainment"), // "33"
        (0x33, 0x34) => Some("Konami"), // "34"
        (0x33, 0x35) => Some("HectorSoft"), // "35"
        (0x33, 0x37) => Some("Taito"), // "37"
        (0x33, 0x38) => Some("HudsonSoft2"), // "38"
        (0x33, 0x39) => Some("Banpresto"), // "39"
        (0x34, 0x31) => Some("UbiSoft1"), // "41"
        (0x34, 0x32) => Some("Atlus"), // "42"
        (0x34, 0x34) => Some("MalibuInteractive"), // "44"
        (0x34, 0x36) => Some("Angel"), // "46"
        (0x34, 0x37) => Some("BulletProofSoftware2"), // "47"
        (0x34, 0x39) => Some("Irem"), // "49"
        (0x35, 0x30) => Some("Absolute"), // "50"
        (0x35, 0x31) => Some("AcclaimEntertainment"), // "51"
        (0x35, 0x32) => Some("Activision"), // "52"
        (0x35, 0x33) => Some("SammyUsaCorporation"), // "53"
        (0x35, 0x34) => Some("Konami2"), // "54"
        (0x35, 0x35) => Some("HiTechExpressions"), // "55"
        (0x35, 0x36) => Some("Ljn"), // "56"
        (0x35, 0x37) => Some("Matchbox"), // "57"
        (0x35, 0x38) => Some("Mattel"), // "58"
        (0x35, 0x39) => Some("MiltonBradleyCompany"), // "59"
        (0x36, 0x30) => Some("TitusInteractive"), // "60"
        (0x36, 0x31) => Some("VirginGamesLtd3"), // "61"
        (0x36, 0x34) => Some("LucasfilmGames4"), // "64"
        (0x36, 0x37) => Some("OceanSoftware"), // "67"
        (0x36, 0x39) => Some("EaElectronicArts2"), // "69"
        (0x37, 0x30) => Some("Infogrames5"), // "70"
        (0x37, 0x31) => Some("InterplayEntertainment"), // "71"
        (0x37, 0x32) => Some("Broderbund"), // "72"
        (0x37, 0x33) => Some("SculpturedSoftware6"), // "73"
        (0x37, 0x35) => Some("TheSalesCurveLimited7"), // "75"
        (0x37, 0x38) => Some("Thq"), // "78"
        (0x37, 0x39) => Some("Accolade8"), // "79"
        (0x38, 0x30) => Some("MisawaEntertainment"), // "80"
        (0x38, 0x33) => Some("LozcG"), // "83"
        (0x38, 0x36) => Some("TokumaShoten"), // "86"
        (0x38, 0x37) => Some("TsukudaOriginal"), // "87"
        (0x39, 0x31) => Some("ChunsoftCo9"), // "91"
        (0x39, 0x32) => Some("VideoSystem"), // "92"
        (0x39, 0x33) => Some("OceanSoftwareAcclaimEntertainment2"), // "93"
        (0x39, 0x35) => Some("Varie"), // "95"
        (0x39, 0x36) => Some("Yonezawa10SPal"), // "96"
        (0x39, 0x37) => Some("Kaneko"), // "97"
        (0x39, 0x39) => Some("PackInVideo"), // "99"
        (0x39, 0x48) => Some("BottomUp"), // "9H"
        (0x41, 0x34) => Some("KonamiYuGiOh"), // "A4"
        (0x42, 0x4C) => Some("Mto"), // "BL"
        (0x44, 0x4B) => Some("Kodansha"), // "DK"
        _ => None,
    }
}

} // verus!
