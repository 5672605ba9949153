use vstd::prelude::*;
use crate::qrcode::{ErrorCorrectionLevel, ErrorCorrectionMetaData, QREncoding};

verus! {

// Character capacity of each version in [1,40], by encoding and error
// correction level.
pub open spec fn char_capacity(encoding: QREncoding, level: ErrorCorrectionLevel) -> Seq<usize> {
    match (encoding, level) {
        (QREncoding::Numeric, ErrorCorrectionLevel::L) => seq![41usize, 77usize, 127usize, 187usize, 255usize, 322usize, 370usize, 461usize, 552usize, 652usize, 772usize, 883usize, 1022usize, 1101usize, 1250usize, 1408usize, 1548usize, 1725usize, 1903usize, 2061usize, 2232usize, 2409usize, 2620usize, 2812usize, 3057usize, 3283usize, 3517usize, 3669usize, 3909usize, 4158usize, 4417usize, 4686usize, 4965usize, 5253usize, 5529usize, 5836usize, 6153usize, 6479usize, 6743usize, 7089usize],
        (QREncoding::AlphaNumeric, ErrorCorrectionLevel::L) => seq![25usize, 47usize, 77usize, 114usize, 154usize, 195usize, 224usize, 279usize, 335usize, 395usize, 468usize, 535usize, 619usize, 667usize, 758usize, 854usize, 938usize, 1046usize, 1153usize, 1249usize, 1352usize, 1460usize, 1588usize, 1704usize, 1853usize, 1990usize, 2132usize, 2223usize, 2369usize, 2520usize, 2677usize, 2840usize, 3009usize, 3183usize, 3351usize, 3537usize, 3729usize, 3927usize, 4087usize, 4296usize],
        (QREncoding::Byte, ErrorCorrectionLevel::L) => seq![17usize, 32usize, 53usize, 78usize, 106usize, 134usize, 154usize, 192usize, 230usize, 271usize, 321usize, 367usize, 425usize, 458usize, 520usize, 586usize, 644usize, 718usize, 792usize, 858usize, 929usize, 1003usize, 1091usize, 1171usize, 1273usize, 1367usize, 1465usize, 1528usize, 1628usize, 1732usize, 1840usize, 1952usize, 2068usize, 2188usize, 2303usize, 2431usize, 2563usize, 2699usize, 2809usize, 2953usize],
        (QREncoding::Numeric, ErrorCorrectionLevel::M) => seq![34usize, 63usize, 101usize, 149usize, 202usize, 255usize, 293usize, 365usize, 432usize, 513usize, 604usize, 691usize, 796usize, 871usize, 991usize, 1082usize, 1212usize, 1346usize, 1500usize, 1600usize, 1708usize, 1872usize, 2059usize, 2188usize, 2395usize, 2544usize, 2701usize, 2857usize, 3035usize, 3289usize, 3486usize, 3693usize, 3909usize, 4134usize, 4343usize, 4588usize, 4775usize, 5039usize, 5313usize, 5596usize],
        (QREncoding::AlphaNumeric, ErrorCorrectionLevel::M) => seq![20usize, 38usize, 61usize, 90usize, 122usize, 154usize, 178usize, 221usize, 262usize, 311usize, 366usize, 419usize, 483usize, 528usize, 600usize, 656usize, 734usize, 816usize, 909usize, 970usize, 1035usize, 1134usize, 1248usize, 1326usize, 1451usize, 1542usize, 1637usize, 1732usize, 1839usize, 1994usize, 2113usize, 2238usize, 2369usize, 2506usize, 2632usize, 2780usize, 2894usize, 3054usize, 3220usize, 3391usize],
        (QREncoding::Byte, ErrorCorrectionLevel::M) => seq![14usize, 26usize, 42usize, 62usize, 84usize, 106usize, 122usize, 152usize, 180usize, 213usize, 251usize, 287usize, 331usize, 362usize, 412usize, 450usize, 504usize, 560usize, 624usize, 666usize, 711usize, 779usize, 857usize, 911usize, 997usize, 1059usize, 1125usize, 1190usize, 1264usize, 1370usize, 1452usize, 1538usize, 1628usize, 1722usize, 1809usize, 1911usize, 1989usize, 2099usize, 2213usize, 2331usize],
        (QREncoding::Numeric, ErrorCorrectionLevel::Q) => seq![27usize, 48usize, 77usize, 111usize, 144usize, 178usize, 207usize, 259usize, 312usize, 364usize, 427usize, 489usize, 580usize, 621usize, 703usize, 775usize, 876usize, 948usize, 1063usize, 1159usize, 1224usize, 1358usize, 1468usize, 1588usize, 1718usize, 1804usize, 1933usize, 2085usize, 2181usize, 2358usize, 2473usize, 2670usize, 2805usize, 2949usize, 3081usize, 3244usize, 3417usize, 3599usize, 3791usize, 3993usize],
        (QREncoding::AlphaNumeric, ErrorCorrectionLevel::Q) => seq![16usize, 29usize, 47usize, 67usize, 87usize, 108usize, 125usize, 157usize, 189usize, 221usize, 259usize, 296usize, 352usize, 376usize, 426usize, 470usize, 531usize, 574usize, 644usize, 702usize, 742usize, 823usize, 890usize, 963usize, 1041usize, 1094usize, 1172usize, 1263usize, 1322usize, 1429usize, 1499usize, 1618usize, 1700usize, 1787usize, 1867usize, 1966usize, 2071usize, 2181usize, 2298usize, 2420usize],
        (QREncoding::Byte, ErrorCorrectionLevel::Q) => seq![11usize, 20usize, 32usize, 46usize, 60usize, 74usize, 86usize, 108usize, 130usize, 151usize, 177usize, 203usize, 241usize, 258usize, 292usize, 322usize, 364usize, 394usize, 442usize, 482usize, 509usize, 565usize, 611usize, 661usize, 715usize, 751usize, 805usize, 868usize, 908usize, 982usize, 1030usize, 1112usize, 1168usize, 1228usize, 1283usize, 1351usize, 1423usize, 1499usize, 1579usize, 1663usize],
        (QREncoding::Numeric, ErrorCorrectionLevel::H) => seq![17usize, 34usize, 58usize, 82usize, 106usize, 139usize, 154usize, 202usize, 235usize, 288usize, 331usize, 374usize, 427usize, 468usize, 530usize, 602usize, 674usize, 746usize, 813usize, 919usize, 969usize, 1056usize, 1108usize, 1228usize, 1286usize, 1425usize, 1501usize, 1581usize, 1677usize, 1782usize, 1897usize, 2022usize, 2157usize, 2301usize, 2361usize, 2524usize, 2625usize, 2735usize, 2927usize, 3057usize],
        (QREncoding::AlphaNumeric, ErrorCorrectionLevel::H) => seq![10usize, 20usize, 35usize, 50usize, 64usize, 84usize, 93usize, 122usize, 143usize, 174usize, 200usize, 227usize, 259usize, 283usize, 321usize, 365usize, 408usize, 452usize, 493usize, 557usize, 587usize, 640usize, 672usize, 744usize, 779usize, 864usize, 910usize, 958usize, 1016usize, 1080usize, 1150usize, 1226usize, 1307usize, 1394usize, 1431usize, 1530usize, 1591usize, 1658usize, 1774usize, 1852usize],
        (QREncoding::Byte, ErrorCorrectionLevel::H) => seq![7usize, 14usize, 24usize, 34usize, 44usize, 58usize, 64usize, 84usize, 98usize, 119usize, 137usize, 155usize, 177usize, 194usize, 220usize, 250usize, 280usize, 310usize, 338usize, 382usize, 403usize, 439usize, 461usize, 511usize, 535usize, 593usize, 625usize, 658usize, 698usize, 742usize, 790usize, 842usize, 898usize, 958usize, 983usize, 1051usize, 1093usize, 1139usize, 1219usize, 1273usize],
        _ => Seq::empty(),
    }
}

/// The capacity row for an encoding and error correction level; empty for
/// the structured-append mode, which carries no capacity here.
pub(crate) fn capacity_row(encoding: &QREncoding, level: &ErrorCorrectionLevel) -> (row: Vec<usize>)
    ensures
        row@ == char_capacity(*encoding, *level),
{
    match (encoding, level) {
        (QREncoding::Numeric, ErrorCorrectionLevel::L) => vec![41usize, 77usize, 127usize, 187usize, 255usize, 322usize, 370usize, 461usize, 552usize, 652usize, 772usize, 883usize, 1022usize, 1101usize, 1250usize, 1408usize, 1548usize, 1725usize, 1903usize, 2061usize, 2232usize, 2409usize, 2620usize, 2812usize, 3057usize, 3283usize, 3517usize, 3669usize, 3909usize, 4158usize, 4417usize, 4686usize, 4965usize, 5253usize, 5529usize, 5836usize, 6153usize, 6479usize, 6743usize, 7089usize],
        (QREncoding::AlphaNumeric, ErrorCorrectionLevel::L) => vec![25usize, 47usize, 77usize, 114usize, 154usize, 195usize, 224usize, 279usize, 335usize, 395usize, 468usize, 535usize, 619usize, 667usize, 758usize, 854usize, 938usize, 1046usize, 1153usize, 1249usize, 1352usize, 1460usize, 1588usize, 1704usize, 1853usize, 1990usize, 2132usize, 2223usize, 2369usize, 2520usize, 2677usize, 2840usize, 3009usize, 3183usize, 3351usize, 3537usize, 3729usize, 3927usize, 4087usize, 4296usize],
        (QREncoding::Byte, ErrorCorrectionLevel::L) => vec![17usize, 32usize, 53usize, 78usize, 106usize, 134usize, 154usize, 192usize, 230usize, 271usize, 321usize, 367usize, 425usize, 458usize, 520usize, 586usize, 644usize, 718usize, 792usize, 858usize, 929usize, 1003usize, 1091usize, 1171usize, 1273usize, 1367usize, 1465usize, 1528usize, 1628usize, 1732usize, 1840usize, 1952usize, 2068usize, 2188usize, 2303usize, 2431usize, 2563usize, 2699usize, 2809usize, 2953usize],
        (QREncoding::Numeric, ErrorCorrectionLevel::M) => vec![34usize, 63usize, 101usize, 149usize, 202usize, 255usize, 293usize, 365usize, 432usize, 513usize, 604usize, 691usize, 796usize, 871usize, 991usize, 1082usize, 1212usize, 1346usize, 1500usize, 1600usize, 1708usize, 1872usize, 2059usize, 2188usize, 2395usize, 2544usize, 2701usize, 2857usize, 3035usize, 3289usize, 3486usize, 3693usize, 3909usize, 4134usize, 4343usize, 4588usize, 4775usize, 5039usize, 5313usize, 5596usize],
        (QREncoding::AlphaNumeric, ErrorCorrectionLevel::M) => vec![20usize, 38usize, 61usize, 90usize, 122usize, 154usize, 178usize, 221usize, 262usize, 311usize, 366usize, 419usize, 483usize, 528usize, 600usize, 656usize, 734usize, 816usize, 909usize, 970usize, 1035usize, 1134usize, 1248usize, 1326usize, 1451usize, 1542usize, 1637usize, 1732usize, 1839usize, 1994usize, 2113usize, 2238usize, 2369usize, 2506usize, 2632usize, 2780usize, 2894usize, 3054usize, 3220usize, 3391usize],
        (QREncoding::Byte, ErrorCorrectionLevel::M) => vec![14usize, 26usize, 42usize, 62usize, 84usize, 106usize, 122usize, 152usize, 180usize, 213usize, 251usize, 287usize, 331usize, 362usize, 412usize, 450usize, 504usize, 560usize, 624usize, 666usize, 711usize, 779usize, 857usize, 911usize, 997usize, 1059usize, 1125usize, 1190usize, 1264usize, 1370usize, 1452usize, 1538usize, 1628usize, 1722usize, 1809usize, 1911usize, 1989usize, 2099usize, 2213usize, 2331usize],
        (QREncoding::Numeric, ErrorCorrectionLevel::Q) => vec![27usize, 48usize, 77usize, 111usize, 144usize, 178usize, 207usize, 259usize, 312usize, 364usize, 427usize, 489usize, 580usize, 621usize, 703usize, 775usize, 876usize, 948usize, 1063usize, 1159usize, 1224usize, 1358usize, 1468usize, 1588usize, 1718usize, 1804usize, 1933usize, 2085usize, 2181usize, 2358usize, 2473usize, 2670usize, 2805usize, 2949usize, 3081usize, 3244usize, 3417usize, 3599usize, 3791usize, 3993usize],
        (QREncoding::AlphaNumeric, ErrorCorrectionLevel::Q) => vec![16usize, 29usize, 47usize, 67usize, 87usize, 108usize, 125usize, 157usize, 189usize, 221usize, 259usize, 296usize, 352usize, 376usize, 426usize, 470usize, 531usize, 574usize, 644usize, 702usize, 742usize, 823usize, 890usize, 963usize, 1041usize, 1094usize, 1172usize, 1263usize, 1322usize, 1429usize, 1499usize, 1618usize, 1700usize, 1787usize, 1867usize, 1966usize, 2071usize, 2181usize, 2298usize, 2420usize],
        (QREncoding::Byte, ErrorCorrectionLevel::Q) => vec![11usize, 20usize, 32usize, 46usize, 60usize, 74usize, 86usize, 108usize, 130usize, 151usize, 177usize, 203usize, 241usize, 258usize, 292usize, 322usize, 364usize, 394usize, 442usize, 482usize, 509usize, 565usize, 611usize, 661usize, 715usize, 751usize, 805usize, 868usize, 908usize, 982usize, 1030usize, 1112usize, 1168usize, 1228usize, 1283usize, 1351usize, 1423usize, 1499usize, 1579usize, 1663usize],
        (QREncoding::Numeric, ErrorCorrectionLevel::H) => vec![17usize, 34usize, 58usize, 82usize, 106usize, 139usize, 154usize, 202usize, 235usize, 288usize, 331usize, 374usize, 427usize, 468usize, 530usize, 602usize, 674usize, 746usize, 813usize, 919usize, 969usize, 1056usize, 1108usize, 1228usize, 1286usize, 1425usize, 1501usize, 1581usize, 1677usize, 1782usize, 1897usize, 2022usize, 2157usize, 2301usize, 2361usize, 2524usize, 2625usize, 2735usize, 2927usize, 3057usize],
        (QREncoding::AlphaNumeric, ErrorCorrectionLevel::H) => vec![10usize, 20usize, 35usize, 50usize, 64usize, 84usize, 93usize, 122usize, 143usize, 174usize, 200usize, 227usize, 259usize, 283usize, 321usize, 365usize, 408usize, 452usize, 493usize, 557usize, 587usize, 640usize, 672usize, 744usize, 779usize, 864usize, 910usize, 958usize, 1016usize, 1080usize, 1150usize, 1226usize, 1307usize, 1394usize, 1431usize, 1530usize, 1591usize, 1658usize, 1774usize, 1852usize],
        (QREncoding::Byte, ErrorCorrectionLevel::H) => vec![7usize, 14usize, 24usize, 34usize, 44usize, 58usize, 64usize, 84usize, 98usize, 119usize, 137usize, 155usize, 177usize, 194usize, 220usize, 250usize, 280usize, 310usize, 338usize, 382usize, 403usize, 439usize, 461usize, 511usize, 535usize, 593usize, 625usize, 658usize, 698usize, 742usize, 790usize, 842usize, 898usize, 958usize, 983usize, 1051usize, 1093usize, 1139usize, 1219usize, 1273usize],
        _ => {
            let v: Vec<usize> = Vec::new();
            proof {
                assert(v@ =~= Seq::<usize>::empty());
            }
            v
        },
    }
}

// How the data codewords of each (version, level) pair are counted and
// grouped into blocks: codewords per error-correction block, then number of
// blocks and data codewords per block for the two groups.
pub open spec fn spec_err_metadata(version: int, level: ErrorCorrectionLevel) -> Option<ErrorCorrectionMetaData> {
    match level {
        ErrorCorrectionLevel::L => {
            if version == 1 {
                Some(ErrorCorrectionMetaData::spec_new(7, 1, 0, 19, 0))
            } else if version == 2 {
                Some(ErrorCorrectionMetaData::spec_new(10, 1, 0, 34, 0))
            } else if version == 3 {
                Some(ErrorCorrectionMetaData::spec_new(15, 1, 0, 55, 0))
            } else if version == 4 {
                Some(ErrorCorrectionMetaData::spec_new(20, 1, 0, 80, 0))
            } else if version == 5 {
                Some(ErrorCorrectionMetaData::spec_new(26, 1, 0, 108, 0))
            } else if version == 6 {
                Some(ErrorCorrectionMetaData::spec_new(18, 2, 0, 68, 0))
            } else if version == 7 {
                Some(ErrorCorrectionMetaData::spec_new(20, 2, 0, 78, 0))
            } else if version == 8 {
                Some(ErrorCorrectionMetaData::spec_new(24, 2, 0, 97, 0))
            } else if version == 9 {
                Some(ErrorCorrectionMetaData::spec_new(30, 2, 0, 116, 0))
            } else if version == 10 {
                Some(ErrorCorrectionMetaData::spec_new(18, 2, 2, 68, 69))
            } else if version == 11 {
                Some(ErrorCorrectionMetaData::spec_new(20, 4, 0, 81, 0))
            } else if version == 12 {
                Some(ErrorCorrectionMetaData::spec_new(24, 2, 2, 92, 93))
            } else if version == 13 {
                Some(ErrorCorrectionMetaData::spec_new(26, 4, 0, 107, 0))
            } else if version == 14 {
                Some(ErrorCorrectionMetaData::spec_new(30, 3, 1, 115, 116))
            } else if version == 15 {
                Some(ErrorCorrectionMetaData::spec_new(22, 5, 1, 87, 88))
            } else if version == 16 {
                Some(ErrorCorrectionMetaData::spec_new(24, 5, 1, 98, 99))
            } else if version == 17 {
                Some(ErrorCorrectionMetaData::spec_new(28, 1, 5, 107, 108))
            } else if version == 18 {
                Some(ErrorCorrectionMetaData::spec_new(30, 5, 1, 120, 121))
            } else if version == 19 {
                Some(ErrorCorrectionMetaData::spec_new(28, 3, 4, 113, 114))
            } else if version == 20 {
                Some(ErrorCorrectionMetaData::spec_new(28, 3, 5, 107, 108))
            } else if version == 21 {
                Some(ErrorCorrectionMetaData::spec_new(28, 4, 4, 116, 117))
            } else if version == 22 {
                Some(ErrorCorrectionMetaData::spec_new(28, 2, 7, 111, 112))
            } else if version == 23 {
                Some(ErrorCorrectionMetaData::spec_new(30, 4, 5, 121, 122))
            } else if version == 24 {
                Some(ErrorCorrectionMetaData::spec_new(30, 6, 4, 117, 118))
            } else if version == 25 {
                Some(ErrorCorrectionMetaData::spec_new(26, 8, 4, 106, 107))
            } else if version == 26 {
                Some(ErrorCorrectionMetaData::spec_new(28, 10, 2, 114, 115))
            } else if version == 27 {
                Some(ErrorCorrectionMetaData::spec_new(30, 8, 4, 122, 123))
            } else if version == 28 {
                Some(ErrorCorrectionMetaData::spec_new(30, 3, 10, 117, 118))
            } else if version == 29 {
                Some(ErrorCorrectionMetaData::spec_new(30, 7, 7, 116, 117))
            } else if version == 30 {
                Some(ErrorCorrectionMetaData::spec_new(30, 5, 10, 115, 116))
            } else if version == 31 {
                Some(ErrorCorrectionMetaData::spec_new(30, 13, 3, 115, 116))
            } else if version == 32 {
                Some(ErrorCorrectionMetaData::spec_new(30, 17, 0, 115, 0))
            } else if version == 33 {
                Some(ErrorCorrectionMetaData::spec_new(30, 17, 1, 115, 116))
            } else if version == 34 {
                Some(ErrorCorrectionMetaData::spec_new(30, 13, 6, 115, 116))
            } else if version == 35 {
                Some(ErrorCorrectionMetaData::spec_new(30, 12, 7, 121, 122))
            } else if version == 36 {
                Some(ErrorCorrectionMetaData::spec_new(30, 6, 14, 121, 122))
            } else if version == 37 {
                Some(ErrorCorrectionMetaData::spec_new(30, 17, 4, 122, 123))
            } else if version == 38 {
                Some(ErrorCorrectionMetaData::spec_new(30, 4, 18, 122, 123))
            } else if version == 39 {
                Some(ErrorCorrectionMetaData::spec_new(30, 20, 4, 117, 118))
            } else if version == 40 {
                Some(ErrorCorrectionMetaData::spec_new(30, 19, 6, 118, 119))
            } else {
                None
            }
        },
        ErrorCorrectionLevel::M => {
            if version == 1 {
                Some(ErrorCorrectionMetaData::spec_new(10, 1, 0, 16, 0))
            } else if version == 2 {
                Some(ErrorCorrectionMetaData::spec_new(16, 1, 0, 28, 0))
            } else if version == 3 {
                Some(ErrorCorrectionMetaData::spec_new(26, 1, 0, 44, 0))
            } else if version == 4 {
                Some(ErrorCorrectionMetaData::spec_new(18, 2, 0, 32, 0))
            } else if version == 5 {
                Some(ErrorCorrectionMetaData::spec_new(24, 2, 0, 43, 0))
            } else if version == 6 {
                Some(ErrorCorrectionMetaData::spec_new(16, 4, 0, 27, 0))
            } else if version == 7 {
                Some(ErrorCorrectionMetaData::spec_new(18, 4, 0, 31, 0))
            } else if version == 8 {
                Some(ErrorCorrectionMetaData::spec_new(22, 2, 2, 38, 39))
            } else if version == 9 {
                Some(ErrorCorrectionMetaData::spec_new(22, 3, 2, 36, 37))
            } else if version == 10 {
                Some(ErrorCorrectionMetaData::spec_new(26, 4, 1, 43, 44))
            } else if version == 11 {
                Some(ErrorCorrectionMetaData::spec_new(30, 1, 4, 50, 51))
            } else if version == 12 {
                Some(ErrorCorrectionMetaData::spec_new(22, 6, 2, 36, 37))
            } else if version == 13 {
                Some(ErrorCorrectionMetaData::spec_new(22, 8, 1, 37, 38))
            } else if version == 14 {
                Some(ErrorCorrectionMetaData::spec_new(24, 4, 5, 40, 41))
            } else if version == 15 {
                Some(ErrorCorrectionMetaData::spec_new(24, 5, 5, 41, 42))
            } else if version == 16 {
                Some(ErrorCorrectionMetaData::spec_new(28, 7, 3, 45, 46))
            } else if version == 17 {
                Some(ErrorCorrectionMetaData::spec_new(28, 10, 1, 46, 47))
            } else if version == 18 {
                Some(ErrorCorrectionMetaData::spec_new(26, 9, 4, 43, 44))
            } else if version == 19 {
                Some(ErrorCorrectionMetaData::spec_new(26, 3, 11, 44, 45))
            } else if version == 20 {
                Some(ErrorCorrectionMetaData::spec_new(26, 3, 13, 41, 42))
            } else if version == 21 {
                Some(ErrorCorrectionMetaData::spec_new(26, 17, 0, 42, 0))
            } else if version == 22 {
                Some(ErrorCorrectionMetaData::spec_new(28, 17, 0, 46, 0))
            } else if version == 23 {
                Some(ErrorCorrectionMetaData::spec_new(28, 4, 14, 47, 48))
            } else if version == 24 {
                Some(ErrorCorrectionMetaData::spec_new(28, 6, 14, 45, 46))
            } else if version == 25 {
                Some(ErrorCorrectionMetaData::spec_new(28, 8, 13, 47, 48))
            } else if version == 26 {
                Some(ErrorCorrectionMetaData::spec_new(28, 19, 4, 46, 47))
            } else if version == 27 {
                Some(ErrorCorrectionMetaData::spec_new(28, 22, 3, 45, 46))
            } else if version == 28 {
                Some(ErrorCorrectionMetaData::spec_new(28, 3, 23, 45, 46))
            } else if version == 29 {
                Some(ErrorCorrectionMetaData::spec_new(28, 21, 7, 45, 46))
            } else if version == 30 {
                Some(ErrorCorrectionMetaData::spec_new(28, 19, 10, 47, 48))
            } else if version == 31 {
                Some(ErrorCorrectionMetaData::spec_new(28, 2, 29, 46, 47))
            } else if version == 32 {
                Some(ErrorCorrectionMetaData::spec_new(28, 10, 23, 46, 47))
            } else if version == 33 {
                Some(ErrorCorrectionMetaData::spec_new(28, 14, 21, 46, 47))
            } else if version == 34 {
                Some(ErrorCorrectionMetaData::spec_new(28, 14, 23, 46, 47))
            } else if version == 35 {
                Some(ErrorCorrectionMetaData::spec_new(28, 12, 26, 47, 48))
            } else if version == 36 {
                Some(ErrorCorrectionMetaData::spec_new(28, 6, 34, 47, 48))
            } else if version == 37 {
                Some(ErrorCorrectionMetaData::spec_new(28, 29, 14, 46, 47))
            } else if version == 38 {
                Some(ErrorCorrectionMetaData::spec_new(28, 13, 32, 46, 47))
            } else if version == 39 {
                Some(ErrorCorrectionMetaData::spec_new(28, 40, 7, 47, 48))
            } else if version == 40 {
                Some(ErrorCorrectionMetaData::spec_new(28, 18, 31, 47, 48))
            } else {
                None
            }
        },
        ErrorCorrectionLevel::Q => {
            if version == 1 {
                Some(ErrorCorrectionMetaData::spec_new(13, 1, 0, 13, 0))
            } else if version == 2 {
                Some(ErrorCorrectionMetaData::spec_new(22, 1, 0, 22, 0))
            } else if version == 3 {
                Some(ErrorCorrectionMetaData::spec_new(18, 2, 0, 17, 0))
            } else if version == 4 {
                Some(ErrorCorrectionMetaData::spec_new(26, 2, 0, 24, 0))
            } else if version == 5 {
                Some(ErrorCorrectionMetaData::spec_new(18, 2, 2, 15, 16))
            } else if version == 6 {
                Some(ErrorCorrectionMetaData::spec_new(24, 4, 0, 19, 0))
            } else if version == 7 {
                Some(ErrorCorrectionMetaData::spec_new(18, 2, 4, 14, 15))
            } else if version == 8 {
                Some(ErrorCorrectionMetaData::spec_new(22, 4, 2, 18, 19))
            } else if version == 9 {
                Some(ErrorCorrectionMetaData::spec_new(20, 4, 4, 16, 17))
            } else if version == 10 {
                Some(ErrorCorrectionMetaData::spec_new(24, 6, 2, 19, 20))
            } else if version == 11 {
                Some(ErrorCorrectionMetaData::spec_new(28, 4, 4, 22, 23))
            } else if version == 12 {
                Some(ErrorCorrectionMetaData::spec_new(26, 4, 6, 20, 21))
            } else if version == 13 {
                Some(ErrorCorrectionMetaData::spec_new(24, 8, 4, 20, 21))
            } else if version == 14 {
                Some(ErrorCorrectionMetaData::spec_new(20, 11, 5, 16, 17))
            } else if version == 15 {
                Some(ErrorCorrectionMetaData::spec_new(30, 5, 7, 24, 25))
            } else if version == 16 {
                Some(ErrorCorrectionMetaData::spec_new(24, 15, 2, 19, 20))
            } else if version == 17 {
                Some(ErrorCorrectionMetaData::spec_new(28, 1, 15, 22, 23))
            } else if version == 18 {
                Some(ErrorCorrectionMetaData::spec_new(28, 17, 1, 22, 23))
            } else if version == 19 {
                Some(ErrorCorrectionMetaData::spec_new(26, 17, 4, 21, 22))
            } else if version == 20 {
                Some(ErrorCorrectionMetaData::spec_new(30, 15, 5, 24, 25))
            } else if version == 21 {
                Some(ErrorCorrectionMetaData::spec_new(28, 17, 6, 22, 23))
            } else if version == 22 {
                Some(ErrorCorrectionMetaData::spec_new(30, 7, 16, 24, 25))
            } else if version == 23 {
                Some(ErrorCorrectionMetaData::spec_new(30, 11, 14, 24, 25))
            } else if version == 24 {
                Some(ErrorCorrectionMetaData::spec_new(30, 11, 16, 24, 25))
            } else if version == 25 {
                Some(ErrorCorrectionMetaData::spec_new(30, 7, 22, 24, 25))
            } else if version == 26 {
                Some(ErrorCorrectionMetaData::spec_new(28, 28, 6, 22, 23))
            } else if version == 27 {
                Some(ErrorCorrectionMetaData::spec_new(30, 8, 26, 23, 24))
            } else if version == 28 {
                Some(ErrorCorrectionMetaData::spec_new(30, 4, 31, 24, 25))
            } else if version == 29 {
                Some(ErrorCorrectionMetaData::spec_new(30, 1, 37, 23, 24))
            } else if version == 30 {
                Some(ErrorCorrectionMetaData::spec_new(30, 15, 25, 24, 25))
            } else if version == 31 {
                Some(ErrorCorrectionMetaData::spec_new(30, 42, 1, 24, 25))
            } else if version == 32 {
                Some(ErrorCorrectionMetaData::spec_new(30, 10, 35, 24, 25))
            } else if version == 33 {
                Some(ErrorCorrectionMetaData::spec_new(30, 29, 19, 24, 25))
            } else if version == 34 {
                Some(ErrorCorrectionMetaData::spec_new(30, 44, 7, 24, 25))
            } else if version == 35 {
                Some(ErrorCorrectionMetaData::spec_new(30, 39, 14, 24, 25))
            } else if version == 36 {
                Some(ErrorCorrectionMetaData::spec_new(30, 46, 10, 24, 25))
            } else if version == 37 {
                Some(ErrorCorrectionMetaData::spec_new(30, 49, 10, 24, 25))
            } else if version == 38 {
                Some(ErrorCorrectionMetaData::spec_new(30, 48, 14, 24, 25))
            } else if version == 39 {
                Some(ErrorCorrectionMetaData::spec_new(30, 43, 22, 24, 25))
            } else if version == 40 {
                Some(ErrorCorrectionMetaData::spec_new(30, 34, 34, 24, 25))
            } else {
                None
            }
        },
        ErrorCorrectionLevel::H => {
            if version == 1 {
                Some(ErrorCorrectionMetaData::spec_new(17, 1, 0, 9, 0))
            } else if version == 2 {
                Some(ErrorCorrectionMetaData::spec_new(28, 1, 0, 16, 0))
            } else if version == 3 {
                Some(ErrorCorrectionMetaData::spec_new(22, 2, 0, 13, 0))
            } else if version == 4 {
                Some(ErrorCorrectionMetaData::spec_new(16, 4, 0, 9, 0))
            } else if version == 5 {
                Some(ErrorCorrectionMetaData::spec_new(22, 2, 2, 11, 12))
            } else if version == 6 {
                Some(ErrorCorrectionMetaData::spec_new(28, 4, 0, 15, 0))
            } else if version == 7 {
                Some(ErrorCorrectionMetaData::spec_new(26, 4, 1, 13, 14))
            } else if version == 8 {
                Some(ErrorCorrectionMetaData::spec_new(26, 4, 2, 14, 15))
            } else if version == 9 {
                Some(ErrorCorrectionMetaData::spec_new(24, 4, 4, 12, 13))
            } else if version == 10 {
                Some(ErrorCorrectionMetaData::spec_new(28, 6, 2, 15, 16))
            } else if version == 11 {
                Some(ErrorCorrectionMetaData::spec_new(24, 3, 8, 12, 13))
            } else if version == 12 {
                Some(ErrorCorrectionMetaData::spec_new(28, 7, 4, 14, 15))
            } else if version == 13 {
                Some(ErrorCorrectionMetaData::spec_new(22, 12, 4, 11, 12))
            } else if version == 14 {
                Some(ErrorCorrectionMetaData::spec_new(24, 11, 5, 12, 13))
            } else if version == 15 {
                Some(ErrorCorrectionMetaData::spec_new(24, 11, 7, 12, 13))
            } else if version == 16 {
                Some(ErrorCorrectionMetaData::spec_new(30, 3, 13, 15, 16))
            } else if version == 17 {
                Some(ErrorCorrectionMetaData::spec_new(28, 2, 17, 14, 15))
            } else if version == 18 {
                Some(ErrorCorrectionMetaData::spec_new(28, 2, 19, 14, 15))
            } else if version == 19 {
                Some(ErrorCorrectionMetaData::spec_new(26, 9, 16, 13, 14))
            } else if version == 20 {
                Some(ErrorCorrectionMetaData::spec_new(28, 15, 10, 15, 16))
            } else if version == 21 {
                Some(ErrorCorrectionMetaData::spec_new(30, 19, 6, 16, 17))
            } else if version == 22 {
                Some(ErrorCorrectionMetaData::spec_new(24, 34, 0, 13, 0))
            } else if version == 23 {
                Some(ErrorCorrectionMetaData::spec_new(30, 16, 14, 15, 16))
            } else if version == 24 {
                Some(ErrorCorrectionMetaData::spec_new(30, 30, 2, 16, 17))
            } else if version == 25 {
                Some(ErrorCorrectionMetaData::spec_new(30, 22, 13, 15, 16))
            } else if version == 26 {
                Some(ErrorCorrectionMetaData::spec_new(30, 33, 4, 16, 17))
            } else if version == 27 {
                Some(ErrorCorrectionMetaData::spec_new(30, 12, 28, 15, 16))
            } else if version == 28 {
                Some(ErrorCorrectionMetaData::spec_new(30, 11, 31, 15, 16))
            } else if version == 29 {
                Some(ErrorCorrectionMetaData::spec_new(30, 19, 26, 15, 16))
            } else if version == 30 {
                Some(ErrorCorrectionMetaData::spec_new(30, 23, 25, 15, 16))
            } else if version == 31 {
                Some(ErrorCorrectionMetaData::spec_new(30, 23, 28, 15, 16))
            } else if version == 32 {
                Some(ErrorCorrectionMetaData::spec_new(30, 19, 35, 15, 16))
            } else if version == 33 {
                Some(ErrorCorrectionMetaData::spec_new(30, 11, 46, 15, 16))
            } else if version == 34 {
                Some(ErrorCorrectionMetaData::spec_new(30, 59, 1, 16, 17))
            } else if version == 35 {
                Some(ErrorCorrectionMetaData::spec_new(30, 22, 41, 15, 16))
            } else if version == 36 {
                Some(ErrorCorrectionMetaData::spec_new(30, 2, 64, 15, 16))
            } else if version == 37 {
                Some(ErrorCorrectionMetaData::spec_new(30, 24, 46, 15, 16))
            } else if version == 38 {
                Some(ErrorCorrectionMetaData::spec_new(30, 42, 32, 15, 16))
            } else if version == 39 {
                Some(ErrorCorrectionMetaData::spec_new(30, 10, 67, 15, 16))
            } else if version == 40 {
                Some(ErrorCorrectionMetaData::spec_new(30, 20, 61, 15, 16))
            } else {
                None
            }
        },
    }
}

/// Look up how the data codewords are grouped for a version and error
/// correction level; versions outside [1,40] have no entry.
pub(crate) fn get_err_metadata(version: usize, error_correction: &ErrorCorrectionLevel) -> (r: Option<ErrorCorrectionMetaData>)
    ensures
        r == spec_err_metadata(version as int, *error_correction),
        r is Some <==> 1 <= version <= 40,
        r matches Some(m) ==> m.wf(),
{
    match error_correction {
        ErrorCorrectionLevel::L => {
            match version {
                1 => Some(ErrorCorrectionMetaData::new(7, 1, 0, 19, 0)),
                2 => Some(ErrorCorrectionMetaData::new(10, 1, 0, 34, 0)),
                3 => Some(ErrorCorrectionMetaData::new(15, 1, 0, 55, 0)),
                4 => Some(ErrorCorrectionMetaData::new(20, 1, 0, 80, 0)),
                5 => Some(ErrorCorrectionMetaData::new(26, 1, 0, 108, 0)),
                6 => Some(ErrorCorrectionMetaData::new(18, 2, 0, 68, 0)),
                7 => Some(ErrorCorrectionMetaData::new(20, 2, 0, 78, 0)),
                8 => Some(ErrorCorrectionMetaData::new(24, 2, 0, 97, 0)),
                9 => Some(ErrorCorrectionMetaData::new(30, 2, 0, 116, 0)),
                10 => Some(ErrorCorrectionMetaData::new(18, 2, 2, 68, 69)),
                11 => Some(ErrorCorrectionMetaData::new(20, 4, 0, 81, 0)),
                12 => Some(ErrorCorrectionMetaData::new(24, 2, 2, 92, 93)),
                13 => Some(ErrorCorrectionMetaData::new(26, 4, 0, 107, 0)),
                14 => Some(ErrorCorrectionMetaData::new(30, 3, 1, 115, 116)),
                15 => Some(ErrorCorrectionMetaData::new(22, 5, 1, 87, 88)),
                16 => Some(ErrorCorrectionMetaData::new(24, 5, 1, 98, 99)),
                17 => Some(ErrorCorrectionMetaData::new(28, 1, 5, 107, 108)),
                18 => Some(ErrorCorrectionMetaData::new(30, 5, 1, 120, 121)),
                19 => Some(ErrorCorrectionMetaData::new(28, 3, 4, 113, 114)),
                20 => Some(ErrorCorrectionMetaData::new(28, 3, 5, 107, 108)),
                21 => Some(ErrorCorrectionMetaData::new(28, 4, 4, 116, 117)),
                22 => Some(ErrorCorrectionMetaData::new(28, 2, 7, 111, 112)),
                23 => Some(ErrorCorrectionMetaData::new(30, 4, 5, 121, 122)),
                24 => Some(ErrorCorrectionMetaData::new(30, 6, 4, 117, 118)),
                25 => Some(ErrorCorrectionMetaData::new(26, 8, 4, 106, 107)),
                26 => Some(ErrorCorrectionMetaData::new(28, 10, 2, 114, 115)),
                27 => Some(ErrorCorrectionMetaData::new(30, 8, 4, 122, 123)),
                28 => Some(ErrorCorrectionMetaData::new(30, 3, 10, 117, 118)),
                29 => Some(ErrorCorrectionMetaData::new(30, 7, 7, 116, 117)),
                30 => Some(ErrorCorrectionMetaData::new(30, 5, 10, 115, 116)),
                31 => Some(ErrorCorrectionMetaData::new(30, 13, 3, 115, 116)),
                32 => Some(ErrorCorrectionMetaData::new(30, 17, 0, 115, 0)),
                33 => Some(ErrorCorrectionMetaData::new(30, 17, 1, 115, 116)),
                34 => Some(ErrorCorrectionMetaData::new(30, 13, 6, 115, 116)),
                35 => Some(ErrorCorrectionMetaData::new(30, 12, 7, 121, 122)),
                36 => Some(ErrorCorrectionMetaData::new(30, 6, 14, 121, 122)),
                37 => Some(ErrorCorrectionMetaData::new(30, 17, 4, 122, 123)),
                38 => Some(ErrorCorrectionMetaData::new(30, 4, 18, 122, 123)),
                39 => Some(ErrorCorrectionMetaData::new(30, 20, 4, 117, 118)),
                40 => Some(ErrorCorrectionMetaData::new(30, 19, 6, 118, 119)),
                _ => None,
            }
        },
        ErrorCorrectionLevel::M => {
            match version {
                1 => Some(ErrorCorrectionMetaData::new(10, 1, 0, 16, 0)),
                2 => Some(ErrorCorrectionMetaData::new(16, 1, 0, 28, 0)),
                3 => Some(ErrorCorrectionMetaData::new(26, 1, 0, 44, 0)),
                4 => Some(ErrorCorrectionMetaData::new(18, 2, 0, 32, 0)),
                5 => Some(ErrorCorrectionMetaData::new(24, 2, 0, 43, 0)),
                6 => Some(ErrorCorrectionMetaData::new(16, 4, 0, 27, 0)),
                7 => Some(ErrorCorrectionMetaData::new(18, 4, 0, 31, 0)),
                8 => Some(ErrorCorrectionMetaData::new(22, 2, 2, 38, 39)),
                9 => Some(ErrorCorrectionMetaData::new(22, 3, 2, 36, 37)),
                10 => Some(ErrorCorrectionMetaData::new(26, 4, 1, 43, 44)),
                11 => Some(ErrorCorrectionMetaData::new(30, 1, 4, 50, 51)),
                12 => Some(ErrorCorrectionMetaData::new(22, 6, 2, 36, 37)),
                13 => Some(ErrorCorrectionMetaData::new(22, 8, 1, 37, 38)),
                14 => Some(ErrorCorrectionMetaData::new(24, 4, 5, 40, 41)),
                15 => Some(ErrorCorrectionMetaData::new(24, 5, 5, 41, 42)),
                16 => Some(ErrorCorrectionMetaData::new(28, 7, 3, 45, 46)),
                17 => Some(ErrorCorrectionMetaData::new(28, 10, 1, 46, 47)),
                18 => Some(ErrorCorrectionMetaData::new(26, 9, 4, 43, 44)),
                19 => Some(ErrorCorrectionMetaData::new(26, 3, 11, 44, 45)),
                20 => Some(ErrorCorrectionMetaData::new(26, 3, 13, 41, 42)),
                21 => Some(ErrorCorrectionMetaData::new(26, 17, 0, 42, 0)),
                22 => Some(ErrorCorrectionMetaData::new(28, 17, 0, 46, 0)),
                23 => Some(ErrorCorrectionMetaData::new(28, 4, 14, 47, 48)),
                24 => Some(ErrorCorrectionMetaData::new(28, 6, 14, 45, 46)),
                25 => Some(ErrorCorrectionMetaData::new(28, 8, 13, 47, 48)),
                26 => Some(ErrorCorrectionMetaData::new(28, 19, 4, 46, 47)),
                27 => Some(ErrorCorrectionMetaData::new(28, 22, 3, 45, 46)),
                28 => Some(ErrorCorrectionMetaData::new(28, 3, 23, 45, 46)),
                29 => Some(ErrorCorrectionMetaData::new(28, 21, 7, 45, 46)),
                30 => Some(ErrorCorrectionMetaData::new(28, 19, 10, 47, 48)),
                31 => Some(ErrorCorrectionMetaData::new(28, 2, 29, 46, 47)),
                32 => Some(ErrorCorrectionMetaData::new(28, 10, 23, 46, 47)),
                33 => Some(ErrorCorrectionMetaData::new(28, 14, 21, 46, 47)),
                34 => Some(ErrorCorrectionMetaData::new(28, 14, 23, 46, 47)),
                35 => Some(ErrorCorrectionMetaData::new(28, 12, 26, 47, 48)),
                36 => Some(ErrorCorrectionMetaData::new(28, 6, 34, 47, 48)),
                37 => Some(ErrorCorrectionMetaData::new(28, 29, 14, 46, 47)),
                38 => Some(ErrorCorrectionMetaData::new(28, 13, 32, 46, 47)),
                39 => Some(ErrorCorrectionMetaData::new(28, 40, 7, 47, 48)),
                40 => Some(ErrorCorrectionMetaData::new(28, 18, 31, 47, 48)),
                _ => None,
            }
        },
        ErrorCorrectionLevel::Q => {
            match version {
                1 => Some(ErrorCorrectionMetaData::new(13, 1, 0, 13, 0)),
                2 => Some(ErrorCorrectionMetaData::new(22, 1, 0, 22, 0)),
                3 => Some(ErrorCorrectionMetaData::new(18, 2, 0, 17, 0)),
                4 => Some(ErrorCorrectionMetaData::new(26, 2, 0, 24, 0)),
                5 => Some(ErrorCorrectionMetaData::new(18, 2, 2, 15, 16)),
                6 => Some(ErrorCorrectionMetaData::new(24, 4, 0, 19, 0)),
                7 => Some(ErrorCorrectionMetaData::new(18, 2, 4, 14, 15)),
                8 => Some(ErrorCorrectionMetaData::new(22, 4, 2, 18, 19)),
                9 => Some(ErrorCorrectionMetaData::new(20, 4, 4, 16, 17)),
                10 => Some(ErrorCorrectionMetaData::new(24, 6, 2, 19, 20)),
                11 => Some(ErrorCorrectionMetaData::new(28, 4, 4, 22, 23)),
                12 => Some(ErrorCorrectionMetaData::new(26, 4, 6, 20, 21)),
                13 => Some(ErrorCorrectionMetaData::new(24, 8, 4, 20, 21)),
                14 => Some(ErrorCorrectionMetaData::new(20, 11, 5, 16, 17)),
                15 => Some(ErrorCorrectionMetaData::new(30, 5, 7, 24, 25)),
                16 => Some(ErrorCorrectionMetaData::new(24, 15, 2, 19, 20)),
                17 => Some(ErrorCorrectionMetaData::new(28, 1, 15, 22, 23)),
                18 => Some(ErrorCorrectionMetaData::new(28, 17, 1, 22, 23)),
                19 => Some(ErrorCorrectionMetaData::new(26, 17, 4, 21, 22)),
                20 => Some(ErrorCorrectionMetaData::new(30, 15, 5, 24, 25)),
                21 => Some(ErrorCorrectionMetaData::new(28, 17, 6, 22, 23)),
                22 => Some(ErrorCorrectionMetaData::new(30, 7, 16, 24, 25)),
                23 => Some(ErrorCorrectionMetaData::new(30, 11, 14, 24, 25)),
                24 => Some(ErrorCorrectionMetaData::new(30, 11, 16, 24, 25)),
                25 => Some(ErrorCorrectionMetaData::new(30, 7, 22, 24, 25)),
                26 => Some(ErrorCorrectionMetaData::new(28, 28, 6, 22, 23)),
                27 => Some(ErrorCorrectionMetaData::new(30, 8, 26, 23, 24)),
                28 => Some(ErrorCorrectionMetaData::new(30, 4, 31, 24, 25)),
                29 => Some(ErrorCorrectionMetaData::new(30, 1, 37, 23, 24)),
                30 => Some(ErrorCorrectionMetaData::new(30, 15, 25, 24, 25)),
                31 => Some(ErrorCorrectionMetaData::new(30, 42, 1, 24, 25)),
                32 => Some(ErrorCorrectionMetaData::new(30, 10, 35, 24, 25)),
                33 => Some(ErrorCorrectionMetaData::new(30, 29, 19, 24, 25)),
                34 => Some(ErrorCorrectionMetaData::new(30, 44, 7, 24, 25)),
                35 => Some(ErrorCorrectionMetaData::new(30, 39, 14, 24, 25)),
                36 => Some(ErrorCorrectionMetaData::new(30, 46, 10, 24, 25)),
                37 => Some(ErrorCorrectionMetaData::new(30, 49, 10, 24, 25)),
                38 => Some(ErrorCorrectionMetaData::new(30, 48, 14, 24, 25)),
                39 => Some(ErrorCorrectionMetaData::new(30, 43, 22, 24, 25)),
                40 => Some(ErrorCorrectionMetaData::new(30, 34, 34, 24, 25)),
                _ => None,
            }
        },
        ErrorCorrectionLevel::H => {
            match version {
                1 => Some(ErrorCorrectionMetaData::new(17, 1, 0, 9, 0)),
                2 => Some(ErrorCorrectionMetaData::new(28, 1, 0, 16, 0)),
                3 => Some(ErrorCorrectionMetaData::new(22, 2, 0, 13, 0)),
                4 => Some(ErrorCorrectionMetaData::new(16, 4, 0, 9, 0)),
                5 => Some(ErrorCorrectionMetaData::new(22, 2, 2, 11, 12)),
                6 => Some(ErrorCorrectionMetaData::new(28, 4, 0, 15, 0)),
                7 => Some(ErrorCorrectionMetaData::new(26, 4, 1, 13, 14)),
                8 => Some(ErrorCorrectionMetaData::new(26, 4, 2, 14, 15)),
                9 => Some(ErrorCorrectionMetaData::new(24, 4, 4, 12, 13)),
                10 => Some(ErrorCorrectionMetaData::new(28, 6, 2, 15, 16)),
                11 => Some(ErrorCorrectionMetaData::new(24, 3, 8, 12, 13)),
                12 => Some(ErrorCorrectionMetaData::new(28, 7, 4, 14, 15)),
                13 => Some(ErrorCorrectionMetaData::new(22, 12, 4, 11, 12)),
                14 => Some(ErrorCorrectionMetaData::new(24, 11, 5, 12, 13)),
                15 => Some(ErrorCorrectionMetaData::new(24, 11, 7, 12, 13)),
                16 => Some(ErrorCorrectionMetaData::new(30, 3, 13, 15, 16)),
                17 => Some(ErrorCorrectionMetaData::new(28, 2, 17, 14, 15)),
                18 => Some(ErrorCorrectionMetaData::new(28, 2, 19, 14, 15)),
                19 => Some(ErrorCorrectionMetaData::new(26, 9, 16, 13, 14)),
                20 => Some(ErrorCorrectionMetaData::new(28, 15, 10, 15, 16)),
                21 => Some(ErrorCorrectionMetaData::new(30, 19, 6, 16, 17)),
                22 => Some(ErrorCorrectionMetaData::new(24, 34, 0, 13, 0)),
                23 => Some(ErrorCorrectionMetaData::new(30, 16, 14, 15, 16)),
                24 => Some(ErrorCorrectionMetaData::new(30, 30, 2, 16, 17)),
                25 => Some(ErrorCorrectionMetaData::new(30, 22, 13, 15, 16)),
                26 => Some(ErrorCorrectionMetaData::new(30, 33, 4, 16, 17)),
                27 => Some(ErrorCorrectionMetaData::new(30, 12, 28, 15, 16)),
                28 => Some(ErrorCorrectionMetaData::new(30, 11, 31, 15, 16)),
                29 => Some(ErrorCorrectionMetaData::new(30, 19, 26, 15, 16)),
                30 => Some(ErrorCorrectionMetaData::new(30, 23, 25, 15, 16)),
                31 => Some(ErrorCorrectionMetaData::new(30, 23, 28, 15, 16)),
                32 => Some(ErrorCorrectionMetaData::new(30, 19, 35, 15, 16)),
                33 => Some(ErrorCorrectionMetaData::new(30, 11, 46, 15, 16)),
                34 => Some(ErrorCorrectionMetaData::new(30, 59, 1, 16, 17)),
                35 => Some(ErrorCorrectionMetaData::new(30, 22, 41, 15, 16)),
                36 => Some(ErrorCorrectionMetaData::new(30, 2, 64, 15, 16)),
                37 => Some(ErrorCorrectionMetaData::new(30, 24, 46, 15, 16)),
                38 => Some(ErrorCorrectionMetaData::new(30, 42, 32, 15, 16)),
                39 => Some(ErrorCorrectionMetaData::new(30, 10, 67, 15, 16)),
                40 => Some(ErrorCorrectionMetaData::new(30, 20, 61, 15, 16)),
                _ => None,
            }
        },
    }
}

/// No version holds more than 7089 characters, at any encoding and level.
pub(crate) proof fn lemma_capacity_bounded(encoding: QREncoding, level: ErrorCorrectionLevel)
    ensures
        forall|i: int|
            0 <= i < char_capacity(encoding, level).len() ==> #[trigger] char_capacity(
                encoding,
                level,
            )[i] <= 7089,
{
}


} // verus!
