//! The shipped case-folding records, the corrections laid over them, and the
//! default fold table.
use std::collections::BTreeMap;
use vstd::prelude::*;
use vstd::string::StringSliceAdditionalSpecFns;
use crate::parse::{apply_corrections, overlay, read_records, scan_lines};

verus! {

// Case-folding records in the format of Unicode's `CaseFolding.txt`, held in
// parts that are read in order into one table. They cover these blocks of the
// Basic Multilingual Plane: Basic Latin through Latin Extended-B, Greek and
// Coptic, Cyrillic and Cyrillic Supplement (to U+0523), Armenian, Georgian,
// Latin Extended Additional, Greek Extended, the letterlike symbols Ohm, Kelvin
// and Angstrom, Number Forms, Enclosed Alphanumerics, Glagolitic, Latin
// Extended-C (to U+2C75), Coptic, Cyrillic Extended-B (to U+A697), Latin
// Extended-D (to U+A78C) and the fullwidth Latin letters.
pub const CASE_FOLDING_01: &'static str = "0041; C; 0061; # LATIN CAPITAL LETTER A\n\
0042; C; 0062; # LATIN CAPITAL LETTER B\n\
0043; C; 0063; # LATIN CAPITAL LETTER C\n\
0044; C; 0064; # LATIN CAPITAL LETTER D\n\
0045; C; 0065; # LATIN CAPITAL LETTER E\n\
0046; C; 0066; # LATIN CAPITAL LETTER F\n\
0047; C; 0067; # LATIN CAPITAL LETTER G\n\
0048; C; 0068; # LATIN CAPITAL LETTER H\n\
0049; C; 0069; # LATIN CAPITAL LETTER I\n\
0049; T; 0131; # LATIN CAPITAL LETTER I\n\
004A; C; 006A; # LATIN CAPITAL LETTER J\n\
004B; C; 006B; # LATIN CAPITAL LETTER K\n\
004C; C; 006C; # LATIN CAPITAL LETTER L\n\
004D; C; 006D; # LATIN CAPITAL LETTER M\n\
004E; C; 006E; # LATIN CAPITAL LETTER N\n\
004F; C; 006F; # LATIN CAPITAL LETTER O\n\
0050; C; 0070; # LATIN CAPITAL LETTER P\n\
0051; C; 0071; # LATIN CAPITAL LETTER Q\n\
0052; C; 0072; # LATIN CAPITAL LETTER R\n\
0053; C; 0073; # LATIN CAPITAL LETTER S\n\
0054; C; 0074; # LATIN CAPITAL LETTER T\n\
0055; C; 0075; # LATIN CAPITAL LETTER U\n\
0056; C; 0076; # LATIN CAPITAL LETTER V\n\
0057; C; 0077; # LATIN CAPITAL LETTER W\n\
0058; C; 0078; # LATIN CAPITAL LETTER X\n\
0059; C; 0079; # LATIN CAPITAL LETTER Y\n\
005A; C; 007A; # LATIN CAPITAL LETTER Z\n\
00B5; C; 03BC; # MICRO SIGN\n\
00C0; C; 00E0; # LATIN CAPITAL LETTER A WITH GRAVE\n\
00C1; C; 00E1; # LATIN CAPITAL LETTER A WITH ACUTE\n\
00C2; C; 00E2; # LATIN CAPITAL LETTER A WITH CIRCUMFLEX\n\
00C3; C; 00E3; # LATIN CAPITAL LETTER A WITH TILDE\n\
00C4; C; 00E4; # LATIN CAPITAL LETTER A WITH DIAERESIS\n\
00C5; C; 00E5; # LATIN CAPITAL LETTER A WITH RING ABOVE\n\
00C6; C; 00E6; # LATIN CAPITAL LETTER AE\n\
00C7; C; 00E7; # LATIN CAPITAL LETTER C WITH CEDILLA\n\
00C8; C; 00E8; # LATIN CAPITAL LETTER E WITH GRAVE\n\
00C9; C; 00E9; # LATIN CAPITAL LETTER E WITH ACUTE\n\
00CA; C; 00EA; # LATIN CAPITAL LETTER E WITH CIRCUMFLEX\n\
00CB; C; 00EB; # LATIN CAPITAL LETTER E WITH DIAERESIS\n";

pub const CASE_FOLDING_02: &'static str = "00CC; C; 00EC; # LATIN CAPITAL LETTER I WITH GRAVE\n\
00CD; C; 00ED; # LATIN CAPITAL LETTER I WITH ACUTE\n\
00CE; C; 00EE; # LATIN CAPITAL LETTER I WITH CIRCUMFLEX\n\
00CF; C; 00EF; # LATIN CAPITAL LETTER I WITH DIAERESIS\n\
00D0; C; 00F0; # LATIN CAPITAL LETTER ETH\n\
00D1; C; 00F1; # LATIN CAPITAL LETTER N WITH TILDE\n\
00D2; C; 00F2; # LATIN CAPITAL LETTER O WITH GRAVE\n\
00D3; C; 00F3; # LATIN CAPITAL LETTER O WITH ACUTE\n\
00D4; C; 00F4; # LATIN CAPITAL LETTER O WITH CIRCUMFLEX\n\
00D5; C; 00F5; # LATIN CAPITAL LETTER O WITH TILDE\n\
00D6; C; 00F6; # LATIN CAPITAL LETTER O WITH DIAERESIS\n\
00D8; C; 00F8; # LATIN CAPITAL LETTER O WITH STROKE\n\
00D9; C; 00F9; # LATIN CAPITAL LETTER U WITH GRAVE\n\
00DA; C; 00FA; # LATIN CAPITAL LETTER U WITH ACUTE\n\
00DB; C; 00FB; # LATIN CAPITAL LETTER U WITH CIRCUMFLEX\n\
00DC; C; 00FC; # LATIN CAPITAL LETTER U WITH DIAERESIS\n\
00DD; C; 00FD; # LATIN CAPITAL LETTER Y WITH ACUTE\n\
00DE; C; 00FE; # LATIN CAPITAL LETTER THORN\n\
00DF; F; 0073 0073; # LATIN SMALL LETTER SHARP S\n\
0100; C; 0101; # LATIN CAPITAL LETTER A WITH MACRON\n\
0102; C; 0103; # LATIN CAPITAL LETTER A WITH BREVE\n\
0104; C; 0105; # LATIN CAPITAL LETTER A WITH OGONEK\n\
0106; C; 0107; # LATIN CAPITAL LETTER C WITH ACUTE\n\
0108; C; 0109; # LATIN CAPITAL LETTER C WITH CIRCUMFLEX\n\
010A; C; 010B; # LATIN CAPITAL LETTER C WITH DOT ABOVE\n\
010C; C; 010D; # LATIN CAPITAL LETTER C WITH CARON\n\
010E; C; 010F; # LATIN CAPITAL LETTER D WITH CARON\n\
0110; C; 0111; # LATIN CAPITAL LETTER D WITH STROKE\n\
0112; C; 0113; # LATIN CAPITAL LETTER E WITH MACRON\n\
0114; C; 0115; # LATIN CAPITAL LETTER E WITH BREVE\n\
0116; C; 0117; # LATIN CAPITAL LETTER E WITH DOT ABOVE\n\
0118; C; 0119; # LATIN CAPITAL LETTER E WITH OGONEK\n\
011A; C; 011B; # LATIN CAPITAL LETTER E WITH CARON\n\
011C; C; 011D; # LATIN CAPITAL LETTER G WITH CIRCUMFLEX\n\
011E; C; 011F; # LATIN CAPITAL LETTER G WITH BREVE\n\
0120; C; 0121; # LATIN CAPITAL LETTER G WITH DOT ABOVE\n\
0122; C; 0123; # LATIN CAPITAL LETTER G WITH CEDILLA\n\
0124; C; 0125; # LATIN CAPITAL LETTER H WITH CIRCUMFLEX\n\
0126; C; 0127; # LATIN CAPITAL LETTER H WITH STROKE\n\
0128; C; 0129; # LATIN CAPITAL LETTER I WITH TILDE\n";

pub const CASE_FOLDING_03: &'static str = "012A; C; 012B; # LATIN CAPITAL LETTER I WITH MACRON\n\
012C; C; 012D; # LATIN CAPITAL LETTER I WITH BREVE\n\
012E; C; 012F; # LATIN CAPITAL LETTER I WITH OGONEK\n\
0130; F; 0069 0307; # LATIN CAPITAL LETTER I WITH DOT ABOVE\n\
0130; T; 0069; # LATIN CAPITAL LETTER I WITH DOT ABOVE\n\
0132; C; 0133; # LATIN CAPITAL LIGATURE IJ\n\
0134; C; 0135; # LATIN CAPITAL LETTER J WITH CIRCUMFLEX\n\
0136; C; 0137; # LATIN CAPITAL LETTER K WITH CEDILLA\n\
0139; C; 013A; # LATIN CAPITAL LETTER L WITH ACUTE\n\
013B; C; 013C; # LATIN CAPITAL LETTER L WITH CEDILLA\n\
013D; C; 013E; # LATIN CAPITAL LETTER L WITH CARON\n\
013F; C; 0140; # LATIN CAPITAL LETTER L WITH MIDDLE DOT\n\
0141; C; 0142; # LATIN CAPITAL LETTER L WITH STROKE\n\
0143; C; 0144; # LATIN CAPITAL LETTER N WITH ACUTE\n\
0145; C; 0146; # LATIN CAPITAL LETTER N WITH CEDILLA\n\
0147; C; 0148; # LATIN CAPITAL LETTER N WITH CARON\n\
0149; F; 02BC 006E; # LATIN SMALL LETTER N PRECEDED BY APOSTROPHE\n\
014A; C; 014B; # LATIN CAPITAL LETTER ENG\n\
014C; C; 014D; # LATIN CAPITAL LETTER O WITH MACRON\n\
014E; C; 014F; # LATIN CAPITAL LETTER O WITH BREVE\n\
0150; C; 0151; # LATIN CAPITAL LETTER O WITH DOUBLE ACUTE\n\
0152; C; 0153; # LATIN CAPITAL LIGATURE OE\n\
0154; C; 0155; # LATIN CAPITAL LETTER R WITH ACUTE\n\
0156; C; 0157; # LATIN CAPITAL LETTER R WITH CEDILLA\n\
0158; C; 0159; # LATIN CAPITAL LETTER R WITH CARON\n\
015A; C; 015B; # LATIN CAPITAL LETTER S WITH ACUTE\n\
015C; C; 015D; # LATIN CAPITAL LETTER S WITH CIRCUMFLEX\n\
015E; C; 015F; # LATIN CAPITAL LETTER S WITH CEDILLA\n\
0160; C; 0161; # LATIN CAPITAL LETTER S WITH CARON\n\
0162; C; 0163; # LATIN CAPITAL LETTER T WITH CEDILLA\n\
0164; C; 0165; # LATIN CAPITAL LETTER T WITH CARON\n\
0166; C; 0167; # LATIN CAPITAL LETTER T WITH STROKE\n\
0168; C; 0169; # LATIN CAPITAL LETTER U WITH TILDE\n\
016A; C; 016B; # LATIN CAPITAL LETTER U WITH MACRON\n\
016C; C; 016D; # LATIN CAPITAL LETTER U WITH BREVE\n\
016E; C; 016F; # LATIN CAPITAL LETTER U WITH RING ABOVE\n\
0170; C; 0171; # LATIN CAPITAL LETTER U WITH DOUBLE ACUTE\n\
0172; C; 0173; # LATIN CAPITAL LETTER U WITH OGONEK\n\
0174; C; 0175; # LATIN CAPITAL LETTER W WITH CIRCUMFLEX\n\
0176; C; 0177; # LATIN CAPITAL LETTER Y WITH CIRCUMFLEX\n";

pub const CASE_FOLDING_04: &'static str = "0178; C; 00FF; # LATIN CAPITAL LETTER Y WITH DIAERESIS\n\
0179; C; 017A; # LATIN CAPITAL LETTER Z WITH ACUTE\n\
017B; C; 017C; # LATIN CAPITAL LETTER Z WITH DOT ABOVE\n\
017D; C; 017E; # LATIN CAPITAL LETTER Z WITH CARON\n\
017F; C; 0073; # LATIN SMALL LETTER LONG S\n\
0181; C; 0253; # LATIN CAPITAL LETTER B WITH HOOK\n\
0182; C; 0183; # LATIN CAPITAL LETTER B WITH TOPBAR\n\
0184; C; 0185; # LATIN CAPITAL LETTER TONE SIX\n\
0186; C; 0254; # LATIN CAPITAL LETTER OPEN O\n\
0187; C; 0188; # LATIN CAPITAL LETTER C WITH HOOK\n\
0189; C; 0256; # LATIN CAPITAL LETTER AFRICAN D\n\
018A; C; 0257; # LATIN CAPITAL LETTER D WITH HOOK\n\
018B; C; 018C; # LATIN CAPITAL LETTER D WITH TOPBAR\n\
018E; C; 01DD; # LATIN CAPITAL LETTER REVERSED E\n\
018F; C; 0259; # LATIN CAPITAL LETTER SCHWA\n\
0190; C; 025B; # LATIN CAPITAL LETTER OPEN E\n\
0191; C; 0192; # LATIN CAPITAL LETTER F WITH HOOK\n\
0193; C; 0260; # LATIN CAPITAL LETTER G WITH HOOK\n\
0194; C; 0263; # LATIN CAPITAL LETTER GAMMA\n\
0196; C; 0269; # LATIN CAPITAL LETTER IOTA\n\
0197; C; 0268; # LATIN CAPITAL LETTER I WITH STROKE\n\
0198; C; 0199; # LATIN CAPITAL LETTER K WITH HOOK\n\
019C; C; 026F; # LATIN CAPITAL LETTER TURNED M\n\
019D; C; 0272; # LATIN CAPITAL LETTER N WITH LEFT HOOK\n\
019F; C; 0275; # LATIN CAPITAL LETTER O WITH MIDDLE TILDE\n\
01A0; C; 01A1; # LATIN CAPITAL LETTER O WITH HORN\n\
01A2; C; 01A3; # LATIN CAPITAL LETTER OI\n\
01A4; C; 01A5; # LATIN CAPITAL LETTER P WITH HOOK\n\
01A6; C; 0280; # LATIN LETTER YR\n\
01A7; C; 01A8; # LATIN CAPITAL LETTER TONE TWO\n\
01A9; C; 0283; # LATIN CAPITAL LETTER ESH\n\
01AC; C; 01AD; # LATIN CAPITAL LETTER T WITH HOOK\n\
01AE; C; 0288; # LATIN CAPITAL LETTER T WITH RETROFLEX HOOK\n\
01AF; C; 01B0; # LATIN CAPITAL LETTER U WITH HORN\n\
01B1; C; 028A; # LATIN CAPITAL LETTER UPSILON\n\
01B2; C; 028B; # LATIN CAPITAL LETTER V WITH HOOK\n\
01B3; C; 01B4; # LATIN CAPITAL LETTER Y WITH HOOK\n\
01B5; C; 01B6; # LATIN CAPITAL LETTER Z WITH STROKE\n\
01B7; C; 0292; # LATIN CAPITAL LETTER EZH\n\
01B8; C; 01B9; # LATIN CAPITAL LETTER EZH REVERSED\n";

pub const CASE_FOLDING_05: &'static str = "01BC; C; 01BD; # LATIN CAPITAL LETTER TONE FIVE\n\
01C4; C; 01C6; # LATIN CAPITAL LETTER DZ WITH CARON\n\
01C5; C; 01C6; # LATIN CAPITAL LETTER D WITH SMALL LETTER Z WITH CARON\n\
01C7; C; 01C9; # LATIN CAPITAL LETTER LJ\n\
01C8; C; 01C9; # LATIN CAPITAL LETTER L WITH SMALL LETTER J\n\
01CA; C; 01CC; # LATIN CAPITAL LETTER NJ\n\
01CB; C; 01CC; # LATIN CAPITAL LETTER N WITH SMALL LETTER J\n\
01CD; C; 01CE; # LATIN CAPITAL LETTER A WITH CARON\n\
01CF; C; 01D0; # LATIN CAPITAL LETTER I WITH CARON\n\
01D1; C; 01D2; # LATIN CAPITAL LETTER O WITH CARON\n\
01D3; C; 01D4; # LATIN CAPITAL LETTER U WITH CARON\n\
01D5; C; 01D6; # LATIN CAPITAL LETTER U WITH DIAERESIS AND MACRON\n\
01D7; C; 01D8; # LATIN CAPITAL LETTER U WITH DIAERESIS AND ACUTE\n\
01D9; C; 01DA; # LATIN CAPITAL LETTER U WITH DIAERESIS AND CARON\n\
01DB; C; 01DC; # LATIN CAPITAL LETTER U WITH DIAERESIS AND GRAVE\n\
01DE; C; 01DF; # LATIN CAPITAL LETTER A WITH DIAERESIS AND MACRON\n\
01E0; C; 01E1; # LATIN CAPITAL LETTER A WITH DOT ABOVE AND MACRON\n\
01E2; C; 01E3; # LATIN CAPITAL LETTER AE WITH MACRON\n\
01E4; C; 01E5; # LATIN CAPITAL LETTER G WITH STROKE\n\
01E6; C; 01E7; # LATIN CAPITAL LETTER G WITH CARON\n\
01E8; C; 01E9; # LATIN CAPITAL LETTER K WITH CARON\n\
01EA; C; 01EB; # LATIN CAPITAL LETTER O WITH OGONEK\n\
01EC; C; 01ED; # LATIN CAPITAL LETTER O WITH OGONEK AND MACRON\n\
01EE; C; 01EF; # LATIN CAPITAL LETTER EZH WITH CARON\n\
01F0; F; 006A 030C; # LATIN SMALL LETTER J WITH CARON\n\
01F1; C; 01F3; # LATIN CAPITAL LETTER DZ\n\
01F2; C; 01F3; # LATIN CAPITAL LETTER D WITH SMALL LETTER Z\n\
01F4; C; 01F5; # LATIN CAPITAL LETTER G WITH ACUTE\n\
01F6; C; 0195; # LATIN CAPITAL LETTER HWAIR\n\
01F7; C; 01BF; # LATIN CAPITAL LETTER WYNN\n\
01F8; C; 01F9; # LATIN CAPITAL LETTER N WITH GRAVE\n\
01FA; C; 01FB; # LATIN CAPITAL LETTER A WITH RING ABOVE AND ACUTE\n\
01FC; C; 01FD; # LATIN CAPITAL LETTER AE WITH ACUTE\n\
01FE; C; 01FF; # LATIN CAPITAL LETTER O WITH STROKE AND ACUTE\n\
0200; C; 0201; # LATIN CAPITAL LETTER A WITH DOUBLE GRAVE\n\
0202; C; 0203; # LATIN CAPITAL LETTER A WITH INVERTED BREVE\n\
0204; C; 0205; # LATIN CAPITAL LETTER E WITH DOUBLE GRAVE\n\
0206; C; 0207; # LATIN CAPITAL LETTER E WITH INVERTED BREVE\n\
0208; C; 0209; # LATIN CAPITAL LETTER I WITH DOUBLE GRAVE\n\
020A; C; 020B; # LATIN CAPITAL LETTER I WITH INVERTED BREVE\n";

pub const CASE_FOLDING_06: &'static str = "020C; C; 020D; # LATIN CAPITAL LETTER O WITH DOUBLE GRAVE\n\
020E; C; 020F; # LATIN CAPITAL LETTER O WITH INVERTED BREVE\n\
0210; C; 0211; # LATIN CAPITAL LETTER R WITH DOUBLE GRAVE\n\
0212; C; 0213; # LATIN CAPITAL LETTER R WITH INVERTED BREVE\n\
0214; C; 0215; # LATIN CAPITAL LETTER U WITH DOUBLE GRAVE\n\
0216; C; 0217; # LATIN CAPITAL LETTER U WITH INVERTED BREVE\n\
0218; C; 0219; # LATIN CAPITAL LETTER S WITH COMMA BELOW\n\
021A; C; 021B; # LATIN CAPITAL LETTER T WITH COMMA BELOW\n\
021C; C; 021D; # LATIN CAPITAL LETTER YOGH\n\
021E; C; 021F; # LATIN CAPITAL LETTER H WITH CARON\n\
0220; C; 019E; # LATIN CAPITAL LETTER N WITH LONG RIGHT LEG\n\
0222; C; 0223; # LATIN CAPITAL LETTER OU\n\
0224; C; 0225; # LATIN CAPITAL LETTER Z WITH HOOK\n\
0226; C; 0227; # LATIN CAPITAL LETTER A WITH DOT ABOVE\n\
0228; C; 0229; # LATIN CAPITAL LETTER E WITH CEDILLA\n\
022A; C; 022B; # LATIN CAPITAL LETTER O WITH DIAERESIS AND MACRON\n\
022C; C; 022D; # LATIN CAPITAL LETTER O WITH TILDE AND MACRON\n\
022E; C; 022F; # LATIN CAPITAL LETTER O WITH DOT ABOVE\n\
0230; C; 0231; # LATIN CAPITAL LETTER O WITH DOT ABOVE AND MACRON\n\
0232; C; 0233; # LATIN CAPITAL LETTER Y WITH MACRON\n\
023A; C; 2C65; # LATIN CAPITAL LETTER A WITH STROKE\n\
023B; C; 023C; # LATIN CAPITAL LETTER C WITH STROKE\n\
023D; C; 019A; # LATIN CAPITAL LETTER L WITH BAR\n\
023E; C; 2C66; # LATIN CAPITAL LETTER T WITH DIAGONAL STROKE\n\
0241; C; 0242; # LATIN CAPITAL LETTER GLOTTAL STOP\n\
0243; C; 0180; # LATIN CAPITAL LETTER B WITH STROKE\n\
0244; C; 0289; # LATIN CAPITAL LETTER U BAR\n\
0245; C; 028C; # LATIN CAPITAL LETTER TURNED V\n\
0246; C; 0247; # LATIN CAPITAL LETTER E WITH STROKE\n\
0248; C; 0249; # LATIN CAPITAL LETTER J WITH STROKE\n\
024A; C; 024B; # LATIN CAPITAL LETTER SMALL Q WITH HOOK TAIL\n\
024C; C; 024D; # LATIN CAPITAL LETTER R WITH STROKE\n\
024E; C; 024F; # LATIN CAPITAL LETTER Y WITH STROKE\n\
0345; C; 03B9; # COMBINING GREEK YPOGEGRAMMENI\n\
0370; C; 0371; # GREEK CAPITAL LETTER HETA\n\
0372; C; 0373; # GREEK CAPITAL LETTER ARCHAIC SAMPI\n\
0376; C; 0377; # GREEK CAPITAL LETTER PAMPHYLIAN DIGAMMA\n\
0386; C; 03AC; # GREEK CAPITAL LETTER ALPHA WITH TONOS\n\
0388; C; 03AD; # GREEK CAPITAL LETTER EPSILON WITH TONOS\n\
0389; C; 03AE; # GREEK CAPITAL LETTER ETA WITH TONOS\n";

pub const CASE_FOLDING_07: &'static str = "038A; C; 03AF; # GREEK CAPITAL LETTER IOTA WITH TONOS\n\
038C; C; 03CC; # GREEK CAPITAL LETTER OMICRON WITH TONOS\n\
038E; C; 03CD; # GREEK CAPITAL LETTER UPSILON WITH TONOS\n\
038F; C; 03CE; # GREEK CAPITAL LETTER OMEGA WITH TONOS\n\
0390; F; 03B9 0308 0301; # GREEK SMALL LETTER IOTA WITH DIALYTIKA AND TONOS\n\
0391; C; 03B1; # GREEK CAPITAL LETTER ALPHA\n\
0392; C; 03B2; # GREEK CAPITAL LETTER BETA\n\
0393; C; 03B3; # GREEK CAPITAL LETTER GAMMA\n\
0394; C; 03B4; # GREEK CAPITAL LETTER DELTA\n\
0395; C; 03B5; # GREEK CAPITAL LETTER EPSILON\n\
0396; C; 03B6; # GREEK CAPITAL LETTER ZETA\n\
0397; C; 03B7; # GREEK CAPITAL LETTER ETA\n\
0398; C; 03B8; # GREEK CAPITAL LETTER THETA\n\
0399; C; 03B9; # GREEK CAPITAL LETTER IOTA\n\
039A; C; 03BA; # GREEK CAPITAL LETTER KAPPA\n\
039B; C; 03BB; # GREEK CAPITAL LETTER LAMDA\n\
039C; C; 03BC; # GREEK CAPITAL LETTER MU\n\
039D; C; 03BD; # GREEK CAPITAL LETTER NU\n\
039E; C; 03BE; # GREEK CAPITAL LETTER XI\n\
039F; C; 03BF; # GREEK CAPITAL LETTER OMICRON\n\
03A0; C; 03C0; # GREEK CAPITAL LETTER PI\n\
03A1; C; 03C1; # GREEK CAPITAL LETTER RHO\n\
03A3; C; 03C3; # GREEK CAPITAL LETTER SIGMA\n\
03A4; C; 03C4; # GREEK CAPITAL LETTER TAU\n\
03A5; C; 03C5; # GREEK CAPITAL LETTER UPSILON\n\
03A6; C; 03C6; # GREEK CAPITAL LETTER PHI\n\
03A7; C; 03C7; # GREEK CAPITAL LETTER CHI\n\
03A8; C; 03C8; # GREEK CAPITAL LETTER PSI\n\
03A9; C; 03C9; # GREEK CAPITAL LETTER OMEGA\n\
03AA; C; 03CA; # GREEK CAPITAL LETTER IOTA WITH DIALYTIKA\n\
03AB; C; 03CB; # GREEK CAPITAL LETTER UPSILON WITH DIALYTIKA\n\
03B0; F; 03C5 0308 0301; # GREEK SMALL LETTER UPSILON WITH DIALYTIKA AND TONOS\n\
03C2; C; 03C3; # GREEK SMALL LETTER FINAL SIGMA\n\
03CF; C; 03D7; # GREEK CAPITAL KAI SYMBOL\n\
03D0; C; 03B2; # GREEK BETA SYMBOL\n\
03D1; C; 03B8; # GREEK THETA SYMBOL\n\
03D5; C; 03C6; # GREEK PHI SYMBOL\n\
03D6; C; 03C0; # GREEK PI SYMBOL\n\
03D8; C; 03D9; # GREEK LETTER ARCHAIC KOPPA\n\
03DA; C; 03DB; # GREEK LETTER STIGMA\n";

pub const CASE_FOLDING_08: &'static str = "03DC; C; 03DD; # GREEK LETTER DIGAMMA\n\
03DE; C; 03DF; # GREEK LETTER KOPPA\n\
03E0; C; 03E1; # GREEK LETTER SAMPI\n\
03E2; C; 03E3; # COPTIC CAPITAL LETTER SHEI\n\
03E4; C; 03E5; # COPTIC CAPITAL LETTER FEI\n\
03E6; C; 03E7; # COPTIC CAPITAL LETTER KHEI\n\
03E8; C; 03E9; # COPTIC CAPITAL LETTER HORI\n\
03EA; C; 03EB; # COPTIC CAPITAL LETTER GANGIA\n\
03EC; C; 03ED; # COPTIC CAPITAL LETTER SHIMA\n\
03EE; C; 03EF; # COPTIC CAPITAL LETTER DEI\n\
03F0; C; 03BA; # GREEK KAPPA SYMBOL\n\
03F1; C; 03C1; # GREEK RHO SYMBOL\n\
03F4; C; 03B8; # GREEK CAPITAL THETA SYMBOL\n\
03F5; C; 03B5; # GREEK LUNATE EPSILON SYMBOL\n\
03F7; C; 03F8; # GREEK CAPITAL LETTER SHO\n\
03F9; C; 03F2; # GREEK CAPITAL LUNATE SIGMA SYMBOL\n\
03FA; C; 03FB; # GREEK CAPITAL LETTER SAN\n\
03FD; C; 037B; # GREEK CAPITAL REVERSED LUNATE SIGMA SYMBOL\n\
03FE; C; 037C; # GREEK CAPITAL DOTTED LUNATE SIGMA SYMBOL\n\
03FF; C; 037D; # GREEK CAPITAL REVERSED DOTTED LUNATE SIGMA SYMBOL\n\
0400; C; 0450; # CYRILLIC CAPITAL LETTER IE WITH GRAVE\n\
0401; C; 0451; # CYRILLIC CAPITAL LETTER IO\n\
0402; C; 0452; # CYRILLIC CAPITAL LETTER DJE\n\
0403; C; 0453; # CYRILLIC CAPITAL LETTER GJE\n\
0404; C; 0454; # CYRILLIC CAPITAL LETTER UKRAINIAN IE\n\
0405; C; 0455; # CYRILLIC CAPITAL LETTER DZE\n\
0406; C; 0456; # CYRILLIC CAPITAL LETTER BYELORUSSIAN-UKRAINIAN I\n\
0407; C; 0457; # CYRILLIC CAPITAL LETTER YI\n\
0408; C; 0458; # CYRILLIC CAPITAL LETTER JE\n\
0409; C; 0459; # CYRILLIC CAPITAL LETTER LJE\n\
040A; C; 045A; # CYRILLIC CAPITAL LETTER NJE\n\
040B; C; 045B; # CYRILLIC CAPITAL LETTER TSHE\n\
040C; C; 045C; # CYRILLIC CAPITAL LETTER KJE\n\
040D; C; 045D; # CYRILLIC CAPITAL LETTER I WITH GRAVE\n\
040E; C; 045E; # CYRILLIC CAPITAL LETTER SHORT U\n\
040F; C; 045F; # CYRILLIC CAPITAL LETTER DZHE\n\
0410; C; 0430; # CYRILLIC CAPITAL LETTER A\n\
0411; C; 0431; # CYRILLIC CAPITAL LETTER BE\n\
0412; C; 0432; # CYRILLIC CAPITAL LETTER VE\n\
0413; C; 0433; # CYRILLIC CAPITAL LETTER GHE\n";

pub const CASE_FOLDING_09: &'static str = "0414; C; 0434; # CYRILLIC CAPITAL LETTER DE\n\
0415; C; 0435; # CYRILLIC CAPITAL LETTER IE\n\
0416; C; 0436; # CYRILLIC CAPITAL LETTER ZHE\n\
0417; C; 0437; # CYRILLIC CAPITAL LETTER ZE\n\
0418; C; 0438; # CYRILLIC CAPITAL LETTER I\n\
0419; C; 0439; # CYRILLIC CAPITAL LETTER SHORT I\n\
041A; C; 043A; # CYRILLIC CAPITAL LETTER KA\n\
041B; C; 043B; # CYRILLIC CAPITAL LETTER EL\n\
041C; C; 043C; # CYRILLIC CAPITAL LETTER EM\n\
041D; C; 043D; # CYRILLIC CAPITAL LETTER EN\n\
041E; C; 043E; # CYRILLIC CAPITAL LETTER O\n\
041F; C; 043F; # CYRILLIC CAPITAL LETTER PE\n\
0420; C; 0440; # CYRILLIC CAPITAL LETTER ER\n\
0421; C; 0441; # CYRILLIC CAPITAL LETTER ES\n\
0422; C; 0442; # CYRILLIC CAPITAL LETTER TE\n\
0423; C; 0443; # CYRILLIC CAPITAL LETTER U\n\
0424; C; 0444; # CYRILLIC CAPITAL LETTER EF\n\
0425; C; 0445; # CYRILLIC CAPITAL LETTER HA\n\
0426; C; 0446; # CYRILLIC CAPITAL LETTER TSE\n\
0427; C; 0447; # CYRILLIC CAPITAL LETTER CHE\n\
0428; C; 0448; # CYRILLIC CAPITAL LETTER SHA\n\
0429; C; 0449; # CYRILLIC CAPITAL LETTER SHCHA\n\
042A; C; 044A; # CYRILLIC CAPITAL LETTER HARD SIGN\n\
042B; C; 044B; # CYRILLIC CAPITAL LETTER YERU\n\
042C; C; 044C; # CYRILLIC CAPITAL LETTER SOFT SIGN\n\
042D; C; 044D; # CYRILLIC CAPITAL LETTER E\n\
042E; C; 044E; # CYRILLIC CAPITAL LETTER YU\n\
042F; C; 044F; # CYRILLIC CAPITAL LETTER YA\n\
0460; C; 0461; # CYRILLIC CAPITAL LETTER OMEGA\n\
0462; C; 0463; # CYRILLIC CAPITAL LETTER YAT\n\
0464; C; 0465; # CYRILLIC CAPITAL LETTER IOTIFIED E\n\
0466; C; 0467; # CYRILLIC CAPITAL LETTER LITTLE YUS\n\
0468; C; 0469; # CYRILLIC CAPITAL LETTER IOTIFIED LITTLE YUS\n\
046A; C; 046B; # CYRILLIC CAPITAL LETTER BIG YUS\n\
046C; C; 046D; # CYRILLIC CAPITAL LETTER IOTIFIED BIG YUS\n\
046E; C; 046F; # CYRILLIC CAPITAL LETTER KSI\n\
0470; C; 0471; # CYRILLIC CAPITAL LETTER PSI\n\
0472; C; 0473; # CYRILLIC CAPITAL LETTER FITA\n\
0474; C; 0475; # CYRILLIC CAPITAL LETTER IZHITSA\n\
0476; C; 0477; # CYRILLIC CAPITAL LETTER IZHITSA WITH DOUBLE GRAVE ACCENT\n";

pub const CASE_FOLDING_10: &'static str = "0478; C; 0479; # CYRILLIC CAPITAL LETTER UK\n\
047A; C; 047B; # CYRILLIC CAPITAL LETTER ROUND OMEGA\n\
047C; C; 047D; # CYRILLIC CAPITAL LETTER OMEGA WITH TITLO\n\
047E; C; 047F; # CYRILLIC CAPITAL LETTER OT\n\
0480; C; 0481; # CYRILLIC CAPITAL LETTER KOPPA\n\
048A; C; 048B; # CYRILLIC CAPITAL LETTER SHORT I WITH TAIL\n\
048C; C; 048D; # CYRILLIC CAPITAL LETTER SEMISOFT SIGN\n\
048E; C; 048F; # CYRILLIC CAPITAL LETTER ER WITH TICK\n\
0490; C; 0491; # CYRILLIC CAPITAL LETTER GHE WITH UPTURN\n\
0492; C; 0493; # CYRILLIC CAPITAL LETTER GHE WITH STROKE\n\
0494; C; 0495; # CYRILLIC CAPITAL LETTER GHE WITH MIDDLE HOOK\n\
0496; C; 0497; # CYRILLIC CAPITAL LETTER ZHE WITH DESCENDER\n\
0498; C; 0499; # CYRILLIC CAPITAL LETTER ZE WITH DESCENDER\n\
049A; C; 049B; # CYRILLIC CAPITAL LETTER KA WITH DESCENDER\n\
049C; C; 049D; # CYRILLIC CAPITAL LETTER KA WITH VERTICAL STROKE\n\
049E; C; 049F; # CYRILLIC CAPITAL LETTER KA WITH STROKE\n\
04A0; C; 04A1; # CYRILLIC CAPITAL LETTER BASHKIR KA\n\
04A2; C; 04A3; # CYRILLIC CAPITAL LETTER EN WITH DESCENDER\n\
04A4; C; 04A5; # CYRILLIC CAPITAL LIGATURE EN GHE\n\
04A6; C; 04A7; # CYRILLIC CAPITAL LETTER PE WITH MIDDLE HOOK\n\
04A8; C; 04A9; # CYRILLIC CAPITAL LETTER ABKHASIAN HA\n\
04AA; C; 04AB; # CYRILLIC CAPITAL LETTER ES WITH DESCENDER\n\
04AC; C; 04AD; # CYRILLIC CAPITAL LETTER TE WITH DESCENDER\n\
04AE; C; 04AF; # CYRILLIC CAPITAL LETTER STRAIGHT U\n\
04B0; C; 04B1; # CYRILLIC CAPITAL LETTER STRAIGHT U WITH STROKE\n\
04B2; C; 04B3; # CYRILLIC CAPITAL LETTER HA WITH DESCENDER\n\
04B4; C; 04B5; # CYRILLIC CAPITAL LIGATURE TE TSE\n\
04B6; C; 04B7; # CYRILLIC CAPITAL LETTER CHE WITH DESCENDER\n\
04B8; C; 04B9; # CYRILLIC CAPITAL LETTER CHE WITH VERTICAL STROKE\n\
04BA; C; 04BB; # CYRILLIC CAPITAL LETTER SHHA\n\
04BC; C; 04BD; # CYRILLIC CAPITAL LETTER ABKHASIAN CHE\n\
04BE; C; 04BF; # CYRILLIC CAPITAL LETTER ABKHASIAN CHE WITH DESCENDER\n\
04C0; C; 04CF; # CYRILLIC LETTER PALOCHKA\n\
04C1; C; 04C2; # CYRILLIC CAPITAL LETTER ZHE WITH BREVE\n\
04C3; C; 04C4; # CYRILLIC CAPITAL LETTER KA WITH HOOK\n\
04C5; C; 04C6; # CYRILLIC CAPITAL LETTER EL WITH TAIL\n\
04C7; C; 04C8; # CYRILLIC CAPITAL LETTER EN WITH HOOK\n\
04C9; C; 04CA; # CYRILLIC CAPITAL LETTER EN WITH TAIL\n\
04CB; C; 04CC; # CYRILLIC CAPITAL LETTER KHAKASSIAN CHE\n\
04CD; C; 04CE; # CYRILLIC CAPITAL LETTER EM WITH TAIL\n";

pub const CASE_FOLDING_11: &'static str = "04D0; C; 04D1; # CYRILLIC CAPITAL LETTER A WITH BREVE\n\
04D2; C; 04D3; # CYRILLIC CAPITAL LETTER A WITH DIAERESIS\n\
04D4; C; 04D5; # CYRILLIC CAPITAL LIGATURE A IE\n\
04D6; C; 04D7; # CYRILLIC CAPITAL LETTER IE WITH BREVE\n\
04D8; C; 04D9; # CYRILLIC CAPITAL LETTER SCHWA\n\
04DA; C; 04DB; # CYRILLIC CAPITAL LETTER SCHWA WITH DIAERESIS\n\
04DC; C; 04DD; # CYRILLIC CAPITAL LETTER ZHE WITH DIAERESIS\n\
04DE; C; 04DF; # CYRILLIC CAPITAL LETTER ZE WITH DIAERESIS\n\
04E0; C; 04E1; # CYRILLIC CAPITAL LETTER ABKHASIAN DZE\n\
04E2; C; 04E3; # CYRILLIC CAPITAL LETTER I WITH MACRON\n\
04E4; C; 04E5; # CYRILLIC CAPITAL LETTER I WITH DIAERESIS\n\
04E6; C; 04E7; # CYRILLIC CAPITAL LETTER O WITH DIAERESIS\n\
04E8; C; 04E9; # CYRILLIC CAPITAL LETTER BARRED O\n\
04EA; C; 04EB; # CYRILLIC CAPITAL LETTER BARRED O WITH DIAERESIS\n\
04EC; C; 04ED; # CYRILLIC CAPITAL LETTER E WITH DIAERESIS\n\
04EE; C; 04EF; # CYRILLIC CAPITAL LETTER U WITH MACRON\n\
04F0; C; 04F1; # CYRILLIC CAPITAL LETTER U WITH DIAERESIS\n\
04F2; C; 04F3; # CYRILLIC CAPITAL LETTER U WITH DOUBLE ACUTE\n\
04F4; C; 04F5; # CYRILLIC CAPITAL LETTER CHE WITH DIAERESIS\n\
04F6; C; 04F7; # CYRILLIC CAPITAL LETTER GHE WITH DESCENDER\n\
04F8; C; 04F9; # CYRILLIC CAPITAL LETTER YERU WITH DIAERESIS\n\
04FA; C; 04FB; # CYRILLIC CAPITAL LETTER GHE WITH STROKE AND HOOK\n\
04FC; C; 04FD; # CYRILLIC CAPITAL LETTER HA WITH HOOK\n\
04FE; C; 04FF; # CYRILLIC CAPITAL LETTER HA WITH STROKE\n\
0500; C; 0501; # CYRILLIC CAPITAL LETTER KOMI DE\n\
0502; C; 0503; # CYRILLIC CAPITAL LETTER KOMI DJE\n\
0504; C; 0505; # CYRILLIC CAPITAL LETTER KOMI ZJE\n\
0506; C; 0507; # CYRILLIC CAPITAL LETTER KOMI DZJE\n\
0508; C; 0509; # CYRILLIC CAPITAL LETTER KOMI LJE\n\
050A; C; 050B; # CYRILLIC CAPITAL LETTER KOMI NJE\n\
050C; C; 050D; # CYRILLIC CAPITAL LETTER KOMI SJE\n\
050E; C; 050F; # CYRILLIC CAPITAL LETTER KOMI TJE\n\
0510; C; 0511; # CYRILLIC CAPITAL LETTER REVERSED ZE\n\
0512; C; 0513; # CYRILLIC CAPITAL LETTER EL WITH HOOK\n\
0514; C; 0515; # CYRILLIC CAPITAL LETTER LHA\n\
0516; C; 0517; # CYRILLIC CAPITAL LETTER RHA\n\
0518; C; 0519; # CYRILLIC CAPITAL LETTER YAE\n\
051A; C; 051B; # CYRILLIC CAPITAL LETTER QA\n\
051C; C; 051D; # CYRILLIC CAPITAL LETTER WE\n\
051E; C; 051F; # CYRILLIC CAPITAL LETTER ALEUT KA\n";

pub const CASE_FOLDING_12: &'static str = "0520; C; 0521; # CYRILLIC CAPITAL LETTER EL WITH MIDDLE HOOK\n\
0522; C; 0523; # CYRILLIC CAPITAL LETTER EN WITH MIDDLE HOOK\n\
0531; C; 0561; # ARMENIAN CAPITAL LETTER AYB\n\
0532; C; 0562; # ARMENIAN CAPITAL LETTER BEN\n\
0533; C; 0563; # ARMENIAN CAPITAL LETTER GIM\n\
0534; C; 0564; # ARMENIAN CAPITAL LETTER DA\n\
0535; C; 0565; # ARMENIAN CAPITAL LETTER ECH\n\
0536; C; 0566; # ARMENIAN CAPITAL LETTER ZA\n\
0537; C; 0567; # ARMENIAN CAPITAL LETTER EH\n\
0538; C; 0568; # ARMENIAN CAPITAL LETTER ET\n\
0539; C; 0569; # ARMENIAN CAPITAL LETTER TO\n\
053A; C; 056A; # ARMENIAN CAPITAL LETTER ZHE\n\
053B; C; 056B; # ARMENIAN CAPITAL LETTER INI\n\
053C; C; 056C; # ARMENIAN CAPITAL LETTER LIWN\n\
053D; C; 056D; # ARMENIAN CAPITAL LETTER XEH\n\
053E; C; 056E; # ARMENIAN CAPITAL LETTER CA\n\
053F; C; 056F; # ARMENIAN CAPITAL LETTER KEN\n\
0540; C; 0570; # ARMENIAN CAPITAL LETTER HO\n\
0541; C; 0571; # ARMENIAN CAPITAL LETTER JA\n\
0542; C; 0572; # ARMENIAN CAPITAL LETTER GHAD\n\
0543; C; 0573; # ARMENIAN CAPITAL LETTER CHEH\n\
0544; C; 0574; # ARMENIAN CAPITAL LETTER MEN\n\
0545; C; 0575; # ARMENIAN CAPITAL LETTER YI\n\
0546; C; 0576; # ARMENIAN CAPITAL LETTER NOW\n\
0547; C; 0577; # ARMENIAN CAPITAL LETTER SHA\n\
0548; C; 0578; # ARMENIAN CAPITAL LETTER VO\n\
0549; C; 0579; # ARMENIAN CAPITAL LETTER CHA\n\
054A; C; 057A; # ARMENIAN CAPITAL LETTER PEH\n\
054B; C; 057B; # ARMENIAN CAPITAL LETTER JHEH\n\
054C; C; 057C; # ARMENIAN CAPITAL LETTER RA\n\
054D; C; 057D; # ARMENIAN CAPITAL LETTER SEH\n\
054E; C; 057E; # ARMENIAN CAPITAL LETTER VEW\n\
054F; C; 057F; # ARMENIAN CAPITAL LETTER TIWN\n\
0550; C; 0580; # ARMENIAN CAPITAL LETTER REH\n\
0551; C; 0581; # ARMENIAN CAPITAL LETTER CO\n\
0552; C; 0582; # ARMENIAN CAPITAL LETTER YIWN\n\
0553; C; 0583; # ARMENIAN CAPITAL LETTER PIWR\n\
0554; C; 0584; # ARMENIAN CAPITAL LETTER KEH\n\
0555; C; 0585; # ARMENIAN CAPITAL LETTER OH\n\
0556; C; 0586; # ARMENIAN CAPITAL LETTER FEH\n";

pub const CASE_FOLDING_13: &'static str = "10A0; C; 2D00; # GEORGIAN CAPITAL LETTER AN\n\
10A1; C; 2D01; # GEORGIAN CAPITAL LETTER BAN\n\
10A2; C; 2D02; # GEORGIAN CAPITAL LETTER GAN\n\
10A3; C; 2D03; # GEORGIAN CAPITAL LETTER DON\n\
10A4; C; 2D04; # GEORGIAN CAPITAL LETTER EN\n\
10A5; C; 2D05; # GEORGIAN CAPITAL LETTER VIN\n\
10A6; C; 2D06; # GEORGIAN CAPITAL LETTER ZEN\n\
10A7; C; 2D07; # GEORGIAN CAPITAL LETTER TAN\n\
10A8; C; 2D08; # GEORGIAN CAPITAL LETTER IN\n\
10A9; C; 2D09; # GEORGIAN CAPITAL LETTER KAN\n\
10AA; C; 2D0A; # GEORGIAN CAPITAL LETTER LAS\n\
10AB; C; 2D0B; # GEORGIAN CAPITAL LETTER MAN\n\
10AC; C; 2D0C; # GEORGIAN CAPITAL LETTER NAR\n\
10AD; C; 2D0D; # GEORGIAN CAPITAL LETTER ON\n\
10AE; C; 2D0E; # GEORGIAN CAPITAL LETTER PAR\n\
10AF; C; 2D0F; # GEORGIAN CAPITAL LETTER ZHAR\n\
10B0; C; 2D10; # GEORGIAN CAPITAL LETTER RAE\n\
10B1; C; 2D11; # GEORGIAN CAPITAL LETTER SAN\n\
10B2; C; 2D12; # GEORGIAN CAPITAL LETTER TAR\n\
10B3; C; 2D13; # GEORGIAN CAPITAL LETTER UN\n\
10B4; C; 2D14; # GEORGIAN CAPITAL LETTER PHAR\n\
10B5; C; 2D15; # GEORGIAN CAPITAL LETTER KHAR\n\
10B6; C; 2D16; # GEORGIAN CAPITAL LETTER GHAN\n\
10B7; C; 2D17; # GEORGIAN CAPITAL LETTER QAR\n\
10B8; C; 2D18; # GEORGIAN CAPITAL LETTER SHIN\n\
10B9; C; 2D19; # GEORGIAN CAPITAL LETTER CHIN\n\
10BA; C; 2D1A; # GEORGIAN CAPITAL LETTER CAN\n\
10BB; C; 2D1B; # GEORGIAN CAPITAL LETTER JIL\n\
10BC; C; 2D1C; # GEORGIAN CAPITAL LETTER CIL\n\
10BD; C; 2D1D; # GEORGIAN CAPITAL LETTER CHAR\n\
10BE; C; 2D1E; # GEORGIAN CAPITAL LETTER XAN\n\
10BF; C; 2D1F; # GEORGIAN CAPITAL LETTER JHAN\n\
10C0; C; 2D20; # GEORGIAN CAPITAL LETTER HAE\n\
10C1; C; 2D21; # GEORGIAN CAPITAL LETTER HE\n\
10C2; C; 2D22; # GEORGIAN CAPITAL LETTER HIE\n\
10C3; C; 2D23; # GEORGIAN CAPITAL LETTER WE\n\
10C4; C; 2D24; # GEORGIAN CAPITAL LETTER HAR\n\
10C5; C; 2D25; # GEORGIAN CAPITAL LETTER HOE\n\
1E00; C; 1E01; # LATIN CAPITAL LETTER A WITH RING BELOW\n\
1E02; C; 1E03; # LATIN CAPITAL LETTER B WITH DOT ABOVE\n";

pub const CASE_FOLDING_14: &'static str = "1E04; C; 1E05; # LATIN CAPITAL LETTER B WITH DOT BELOW\n\
1E06; C; 1E07; # LATIN CAPITAL LETTER B WITH LINE BELOW\n\
1E08; C; 1E09; # LATIN CAPITAL LETTER C WITH CEDILLA AND ACUTE\n\
1E0A; C; 1E0B; # LATIN CAPITAL LETTER D WITH DOT ABOVE\n\
1E0C; C; 1E0D; # LATIN CAPITAL LETTER D WITH DOT BELOW\n\
1E0E; C; 1E0F; # LATIN CAPITAL LETTER D WITH LINE BELOW\n\
1E10; C; 1E11; # LATIN CAPITAL LETTER D WITH CEDILLA\n\
1E12; C; 1E13; # LATIN CAPITAL LETTER D WITH CIRCUMFLEX BELOW\n\
1E14; C; 1E15; # LATIN CAPITAL LETTER E WITH MACRON AND GRAVE\n\
1E16; C; 1E17; # LATIN CAPITAL LETTER E WITH MACRON AND ACUTE\n\
1E18; C; 1E19; # LATIN CAPITAL LETTER E WITH CIRCUMFLEX BELOW\n\
1E1A; C; 1E1B; # LATIN CAPITAL LETTER E WITH TILDE BELOW\n\
1E1C; C; 1E1D; # LATIN CAPITAL LETTER E WITH CEDILLA AND BREVE\n\
1E1E; C; 1E1F; # LATIN CAPITAL LETTER F WITH DOT ABOVE\n\
1E20; C; 1E21; # LATIN CAPITAL LETTER G WITH MACRON\n\
1E22; C; 1E23; # LATIN CAPITAL LETTER H WITH DOT ABOVE\n\
1E24; C; 1E25; # LATIN CAPITAL LETTER H WITH DOT BELOW\n\
1E26; C; 1E27; # LATIN CAPITAL LETTER H WITH DIAERESIS\n\
1E28; C; 1E29; # LATIN CAPITAL LETTER H WITH CEDILLA\n\
1E2A; C; 1E2B; # LATIN CAPITAL LETTER H WITH BREVE BELOW\n\
1E2C; C; 1E2D; # LATIN CAPITAL LETTER I WITH TILDE BELOW\n\
1E2E; C; 1E2F; # LATIN CAPITAL LETTER I WITH DIAERESIS AND ACUTE\n\
1E30; C; 1E31; # LATIN CAPITAL LETTER K WITH ACUTE\n\
1E32; C; 1E33; # LATIN CAPITAL LETTER K WITH DOT BELOW\n\
1E34; C; 1E35; # LATIN CAPITAL LETTER K WITH LINE BELOW\n\
1E36; C; 1E37; # LATIN CAPITAL LETTER L WITH DOT BELOW\n\
1E38; C; 1E39; # LATIN CAPITAL LETTER L WITH DOT BELOW AND MACRON\n\
1E3A; C; 1E3B; # LATIN CAPITAL LETTER L WITH LINE BELOW\n\
1E3C; C; 1E3D; # LATIN CAPITAL LETTER L WITH CIRCUMFLEX BELOW\n\
1E3E; C; 1E3F; # LATIN CAPITAL LETTER M WITH ACUTE\n\
1E40; C; 1E41; # LATIN CAPITAL LETTER M WITH DOT ABOVE\n\
1E42; C; 1E43; # LATIN CAPITAL LETTER M WITH DOT BELOW\n\
1E44; C; 1E45; # LATIN CAPITAL LETTER N WITH DOT ABOVE\n\
1E46; C; 1E47; # LATIN CAPITAL LETTER N WITH DOT BELOW\n\
1E48; C; 1E49; # LATIN CAPITAL LETTER N WITH LINE BELOW\n\
1E4A; C; 1E4B; # LATIN CAPITAL LETTER N WITH CIRCUMFLEX BELOW\n\
1E4C; C; 1E4D; # LATIN CAPITAL LETTER O WITH TILDE AND ACUTE\n\
1E4E; C; 1E4F; # LATIN CAPITAL LETTER O WITH TILDE AND DIAERESIS\n\
1E50; C; 1E51; # LATIN CAPITAL LETTER O WITH MACRON AND GRAVE\n\
1E52; C; 1E53; # LATIN CAPITAL LETTER O WITH MACRON AND ACUTE\n";

pub const CASE_FOLDING_15: &'static str = "1E54; C; 1E55; # LATIN CAPITAL LETTER P WITH ACUTE\n\
1E56; C; 1E57; # LATIN CAPITAL LETTER P WITH DOT ABOVE\n\
1E58; C; 1E59; # LATIN CAPITAL LETTER R WITH DOT ABOVE\n\
1E5A; C; 1E5B; # LATIN CAPITAL LETTER R WITH DOT BELOW\n\
1E5C; C; 1E5D; # LATIN CAPITAL LETTER R WITH DOT BELOW AND MACRON\n\
1E5E; C; 1E5F; # LATIN CAPITAL LETTER R WITH LINE BELOW\n\
1E60; C; 1E61; # LATIN CAPITAL LETTER S WITH DOT ABOVE\n\
1E62; C; 1E63; # LATIN CAPITAL LETTER S WITH DOT BELOW\n\
1E64; C; 1E65; # LATIN CAPITAL LETTER S WITH ACUTE AND DOT ABOVE\n\
1E66; C; 1E67; # LATIN CAPITAL LETTER S WITH CARON AND DOT ABOVE\n\
1E68; C; 1E69; # LATIN CAPITAL LETTER S WITH DOT BELOW AND DOT ABOVE\n\
1E6A; C; 1E6B; # LATIN CAPITAL LETTER T WITH DOT ABOVE\n\
1E6C; C; 1E6D; # LATIN CAPITAL LETTER T WITH DOT BELOW\n\
1E6E; C; 1E6F; # LATIN CAPITAL LETTER T WITH LINE BELOW\n\
1E70; C; 1E71; # LATIN CAPITAL LETTER T WITH CIRCUMFLEX BELOW\n\
1E72; C; 1E73; # LATIN CAPITAL LETTER U WITH DIAERESIS BELOW\n\
1E74; C; 1E75; # LATIN CAPITAL LETTER U WITH TILDE BELOW\n\
1E76; C; 1E77; # LATIN CAPITAL LETTER U WITH CIRCUMFLEX BELOW\n\
1E78; C; 1E79; # LATIN CAPITAL LETTER U WITH TILDE AND ACUTE\n\
1E7A; C; 1E7B; # LATIN CAPITAL LETTER U WITH MACRON AND DIAERESIS\n\
1E7C; C; 1E7D; # LATIN CAPITAL LETTER V WITH TILDE\n\
1E7E; C; 1E7F; # LATIN CAPITAL LETTER V WITH DOT BELOW\n\
1E80; C; 1E81; # LATIN CAPITAL LETTER W WITH GRAVE\n\
1E82; C; 1E83; # LATIN CAPITAL LETTER W WITH ACUTE\n\
1E84; C; 1E85; # LATIN CAPITAL LETTER W WITH DIAERESIS\n\
1E86; C; 1E87; # LATIN CAPITAL LETTER W WITH DOT ABOVE\n\
1E88; C; 1E89; # LATIN CAPITAL LETTER W WITH DOT BELOW\n\
1E8A; C; 1E8B; # LATIN CAPITAL LETTER X WITH DOT ABOVE\n\
1E8C; C; 1E8D; # LATIN CAPITAL LETTER X WITH DIAERESIS\n\
1E8E; C; 1E8F; # LATIN CAPITAL LETTER Y WITH DOT ABOVE\n\
1E90; C; 1E91; # LATIN CAPITAL LETTER Z WITH CIRCUMFLEX\n\
1E92; C; 1E93; # LATIN CAPITAL LETTER Z WITH DOT BELOW\n\
1E94; C; 1E95; # LATIN CAPITAL LETTER Z WITH LINE BELOW\n\
1E96; F; 0068 0331; # LATIN SMALL LETTER H WITH LINE BELOW\n\
1E97; F; 0074 0308; # LATIN SMALL LETTER T WITH DIAERESIS\n\
1E98; F; 0077 030A; # LATIN SMALL LETTER W WITH RING ABOVE\n\
1E99; F; 0079 030A; # LATIN SMALL LETTER Y WITH RING ABOVE\n\
1E9A; F; 0061 02BE; # LATIN SMALL LETTER A WITH RIGHT HALF RING\n\
1E9B; C; 1E61; # LATIN SMALL LETTER LONG S WITH DOT ABOVE\n\
1E9E; S; 00DF; # LATIN CAPITAL LETTER SHARP S\n";

pub const CASE_FOLDING_16: &'static str = "1E9E; F; 0073 0073; # LATIN CAPITAL LETTER SHARP S\n\
1EA0; C; 1EA1; # LATIN CAPITAL LETTER A WITH DOT BELOW\n\
1EA2; C; 1EA3; # LATIN CAPITAL LETTER A WITH HOOK ABOVE\n\
1EA4; C; 1EA5; # LATIN CAPITAL LETTER A WITH CIRCUMFLEX AND ACUTE\n\
1EA6; C; 1EA7; # LATIN CAPITAL LETTER A WITH CIRCUMFLEX AND GRAVE\n\
1EA8; C; 1EA9; # LATIN CAPITAL LETTER A WITH CIRCUMFLEX AND HOOK ABOVE\n\
1EAA; C; 1EAB; # LATIN CAPITAL LETTER A WITH CIRCUMFLEX AND TILDE\n\
1EAC; C; 1EAD; # LATIN CAPITAL LETTER A WITH CIRCUMFLEX AND DOT BELOW\n\
1EAE; C; 1EAF; # LATIN CAPITAL LETTER A WITH BREVE AND ACUTE\n\
1EB0; C; 1EB1; # LATIN CAPITAL LETTER A WITH BREVE AND GRAVE\n\
1EB2; C; 1EB3; # LATIN CAPITAL LETTER A WITH BREVE AND HOOK ABOVE\n\
1EB4; C; 1EB5; # LATIN CAPITAL LETTER A WITH BREVE AND TILDE\n\
1EB6; C; 1EB7; # LATIN CAPITAL LETTER A WITH BREVE AND DOT BELOW\n\
1EB8; C; 1EB9; # LATIN CAPITAL LETTER E WITH DOT BELOW\n\
1EBA; C; 1EBB; # LATIN CAPITAL LETTER E WITH HOOK ABOVE\n\
1EBC; C; 1EBD; # LATIN CAPITAL LETTER E WITH TILDE\n\
1EBE; C; 1EBF; # LATIN CAPITAL LETTER E WITH CIRCUMFLEX AND ACUTE\n\
1EC0; C; 1EC1; # LATIN CAPITAL LETTER E WITH CIRCUMFLEX AND GRAVE\n\
1EC2; C; 1EC3; # LATIN CAPITAL LETTER E WITH CIRCUMFLEX AND HOOK ABOVE\n\
1EC4; C; 1EC5; # LATIN CAPITAL LETTER E WITH CIRCUMFLEX AND TILDE\n\
1EC6; C; 1EC7; # LATIN CAPITAL LETTER E WITH CIRCUMFLEX AND DOT BELOW\n\
1EC8; C; 1EC9; # LATIN CAPITAL LETTER I WITH HOOK ABOVE\n\
1ECA; C; 1ECB; # LATIN CAPITAL LETTER I WITH DOT BELOW\n\
1ECC; C; 1ECD; # LATIN CAPITAL LETTER O WITH DOT BELOW\n\
1ECE; C; 1ECF; # LATIN CAPITAL LETTER O WITH HOOK ABOVE\n\
1ED0; C; 1ED1; # LATIN CAPITAL LETTER O WITH CIRCUMFLEX AND ACUTE\n\
1ED2; C; 1ED3; # LATIN CAPITAL LETTER O WITH CIRCUMFLEX AND GRAVE\n\
1ED4; C; 1ED5; # LATIN CAPITAL LETTER O WITH CIRCUMFLEX AND HOOK ABOVE\n\
1ED6; C; 1ED7; # LATIN CAPITAL LETTER O WITH CIRCUMFLEX AND TILDE\n\
1ED8; C; 1ED9; # LATIN CAPITAL LETTER O WITH CIRCUMFLEX AND DOT BELOW\n\
1EDA; C; 1EDB; # LATIN CAPITAL LETTER O WITH HORN AND ACUTE\n\
1EDC; C; 1EDD; # LATIN CAPITAL LETTER O WITH HORN AND GRAVE\n\
1EDE; C; 1EDF; # LATIN CAPITAL LETTER O WITH HORN AND HOOK ABOVE\n\
1EE0; C; 1EE1; # LATIN CAPITAL LETTER O WITH HORN AND TILDE\n\
1EE2; C; 1EE3; # LATIN CAPITAL LETTER O WITH HORN AND DOT BELOW\n\
1EE4; C; 1EE5; # LATIN CAPITAL LETTER U WITH DOT BELOW\n\
1EE6; C; 1EE7; # LATIN CAPITAL LETTER U WITH HOOK ABOVE\n\
1EE8; C; 1EE9; # LATIN CAPITAL LETTER U WITH HORN AND ACUTE\n\
1EEA; C; 1EEB; # LATIN CAPITAL LETTER U WITH HORN AND GRAVE\n\
1EEC; C; 1EED; # LATIN CAPITAL LETTER U WITH HORN AND HOOK ABOVE\n";

pub const CASE_FOLDING_17: &'static str = "1EEE; C; 1EEF; # LATIN CAPITAL LETTER U WITH HORN AND TILDE\n\
1EF0; C; 1EF1; # LATIN CAPITAL LETTER U WITH HORN AND DOT BELOW\n\
1EF2; C; 1EF3; # LATIN CAPITAL LETTER Y WITH GRAVE\n\
1EF4; C; 1EF5; # LATIN CAPITAL LETTER Y WITH DOT BELOW\n\
1EF6; C; 1EF7; # LATIN CAPITAL LETTER Y WITH HOOK ABOVE\n\
1EF8; C; 1EF9; # LATIN CAPITAL LETTER Y WITH TILDE\n\
1EFA; C; 1EFB; # LATIN CAPITAL LETTER MIDDLE-WELSH LL\n\
1EFC; C; 1EFD; # LATIN CAPITAL LETTER MIDDLE-WELSH V\n\
1EFE; C; 1EFF; # LATIN CAPITAL LETTER Y WITH LOOP\n\
1F08; C; 1F00; # GREEK CAPITAL LETTER ALPHA WITH PSILI\n\
1F09; C; 1F01; # GREEK CAPITAL LETTER ALPHA WITH DASIA\n\
1F0A; C; 1F02; # GREEK CAPITAL LETTER ALPHA WITH PSILI AND VARIA\n\
1F0B; C; 1F03; # GREEK CAPITAL LETTER ALPHA WITH DASIA AND VARIA\n\
1F0C; C; 1F04; # GREEK CAPITAL LETTER ALPHA WITH PSILI AND OXIA\n\
1F0D; C; 1F05; # GREEK CAPITAL LETTER ALPHA WITH DASIA AND OXIA\n\
1F0E; C; 1F06; # GREEK CAPITAL LETTER ALPHA WITH PSILI AND PERISPOMENI\n\
1F0F; C; 1F07; # GREEK CAPITAL LETTER ALPHA WITH DASIA AND PERISPOMENI\n\
1F18; C; 1F10; # GREEK CAPITAL LETTER EPSILON WITH PSILI\n\
1F19; C; 1F11; # GREEK CAPITAL LETTER EPSILON WITH DASIA\n\
1F1A; C; 1F12; # GREEK CAPITAL LETTER EPSILON WITH PSILI AND VARIA\n\
1F1B; C; 1F13; # GREEK CAPITAL LETTER EPSILON WITH DASIA AND VARIA\n\
1F1C; C; 1F14; # GREEK CAPITAL LETTER EPSILON WITH PSILI AND OXIA\n\
1F1D; C; 1F15; # GREEK CAPITAL LETTER EPSILON WITH DASIA AND OXIA\n\
1F28; C; 1F20; # GREEK CAPITAL LETTER ETA WITH PSILI\n\
1F29; C; 1F21; # GREEK CAPITAL LETTER ETA WITH DASIA\n\
1F2A; C; 1F22; # GREEK CAPITAL LETTER ETA WITH PSILI AND VARIA\n\
1F2B; C; 1F23; # GREEK CAPITAL LETTER ETA WITH DASIA AND VARIA\n\
1F2C; C; 1F24; # GREEK CAPITAL LETTER ETA WITH PSILI AND OXIA\n\
1F2D; C; 1F25; # GREEK CAPITAL LETTER ETA WITH DASIA AND OXIA\n\
1F2E; C; 1F26; # GREEK CAPITAL LETTER ETA WITH PSILI AND PERISPOMENI\n\
1F2F; C; 1F27; # GREEK CAPITAL LETTER ETA WITH DASIA AND PERISPOMENI\n\
1F38; C; 1F30; # GREEK CAPITAL LETTER IOTA WITH PSILI\n\
1F39; C; 1F31; # GREEK CAPITAL LETTER IOTA WITH DASIA\n\
1F3A; C; 1F32; # GREEK CAPITAL LETTER IOTA WITH PSILI AND VARIA\n\
1F3B; C; 1F33; # GREEK CAPITAL LETTER IOTA WITH DASIA AND VARIA\n\
1F3C; C; 1F34; # GREEK CAPITAL LETTER IOTA WITH PSILI AND OXIA\n\
1F3D; C; 1F35; # GREEK CAPITAL LETTER IOTA WITH DASIA AND OXIA\n\
1F3E; C; 1F36; # GREEK CAPITAL LETTER IOTA WITH PSILI AND PERISPOMENI\n\
1F3F; C; 1F37; # GREEK CAPITAL LETTER IOTA WITH DASIA AND PERISPOMENI\n\
1F48; C; 1F40; # GREEK CAPITAL LETTER OMICRON WITH PSILI\n";

pub const CASE_FOLDING_18: &'static str = "1F49; C; 1F41; # GREEK CAPITAL LETTER OMICRON WITH DASIA\n\
1F4A; C; 1F42; # GREEK CAPITAL LETTER OMICRON WITH PSILI AND VARIA\n\
1F4B; C; 1F43; # GREEK CAPITAL LETTER OMICRON WITH DASIA AND VARIA\n\
1F4C; C; 1F44; # GREEK CAPITAL LETTER OMICRON WITH PSILI AND OXIA\n\
1F4D; C; 1F45; # GREEK CAPITAL LETTER OMICRON WITH DASIA AND OXIA\n\
1F50; F; 03C5 0313; # GREEK SMALL LETTER UPSILON WITH PSILI\n\
1F52; F; 03C5 0313 0300; # GREEK SMALL LETTER UPSILON WITH PSILI AND VARIA\n\
1F54; F; 03C5 0313 0301; # GREEK SMALL LETTER UPSILON WITH PSILI AND OXIA\n\
1F56; F; 03C5 0313 0342; # GREEK SMALL LETTER UPSILON WITH PSILI AND PERISPOMENI\n\
1F59; C; 1F51; # GREEK CAPITAL LETTER UPSILON WITH DASIA\n\
1F5B; C; 1F53; # GREEK CAPITAL LETTER UPSILON WITH DASIA AND VARIA\n\
1F5D; C; 1F55; # GREEK CAPITAL LETTER UPSILON WITH DASIA AND OXIA\n\
1F5F; C; 1F57; # GREEK CAPITAL LETTER UPSILON WITH DASIA AND PERISPOMENI\n\
1F68; C; 1F60; # GREEK CAPITAL LETTER OMEGA WITH PSILI\n\
1F69; C; 1F61; # GREEK CAPITAL LETTER OMEGA WITH DASIA\n\
1F6A; C; 1F62; # GREEK CAPITAL LETTER OMEGA WITH PSILI AND VARIA\n\
1F6B; C; 1F63; # GREEK CAPITAL LETTER OMEGA WITH DASIA AND VARIA\n\
1F6C; C; 1F64; # GREEK CAPITAL LETTER OMEGA WITH PSILI AND OXIA\n\
1F6D; C; 1F65; # GREEK CAPITAL LETTER OMEGA WITH DASIA AND OXIA\n\
1F6E; C; 1F66; # GREEK CAPITAL LETTER OMEGA WITH PSILI AND PERISPOMENI\n\
1F6F; C; 1F67; # GREEK CAPITAL LETTER OMEGA WITH DASIA AND PERISPOMENI\n\
1F80; F; 1F00 03B9; # GREEK SMALL LETTER ALPHA WITH PSILI AND YPOGEGRAMMENI\n\
1F81; F; 1F01 03B9; # GREEK SMALL LETTER ALPHA WITH DASIA AND YPOGEGRAMMENI\n\
1F82; F; 1F02 03B9; # GREEK SMALL LETTER ALPHA WITH PSILI AND VARIA AND YPOGEGRAMMENI\n\
1F83; F; 1F03 03B9; # GREEK SMALL LETTER ALPHA WITH DASIA AND VARIA AND YPOGEGRAMMENI\n\
1F84; F; 1F04 03B9; # GREEK SMALL LETTER ALPHA WITH PSILI AND OXIA AND YPOGEGRAMMENI\n\
1F85; F; 1F05 03B9; # GREEK SMALL LETTER ALPHA WITH DASIA AND OXIA AND YPOGEGRAMMENI\n\
1F86; F; 1F06 03B9; # GREEK SMALL LETTER ALPHA WITH PSILI AND PERISPOMENI AND YPOGEGRAMMENI\n\
1F87; F; 1F07 03B9; # GREEK SMALL LETTER ALPHA WITH DASIA AND PERISPOMENI AND YPOGEGRAMMENI\n\
1F88; S; 1F80; # GREEK CAPITAL LETTER ALPHA WITH PSILI AND PROSGEGRAMMENI\n\
1F88; F; 1F00 03B9; # GREEK CAPITAL LETTER ALPHA WITH PSILI AND PROSGEGRAMMENI\n\
1F89; S; 1F81; # GREEK CAPITAL LETTER ALPHA WITH DASIA AND PROSGEGRAMMENI\n\
1F89; F; 1F01 03B9; # GREEK CAPITAL LETTER ALPHA WITH DASIA AND PROSGEGRAMMENI\n\
1F8A; S; 1F82; # GREEK CAPITAL LETTER ALPHA WITH PSILI AND VARIA AND PROSGEGRAMMENI\n\
1F8A; F; 1F02 03B9; # GREEK CAPITAL LETTER ALPHA WITH PSILI AND VARIA AND PROSGEGRAMMENI\n\
1F8B; S; 1F83; # GREEK CAPITAL LETTER ALPHA WITH DASIA AND VARIA AND PROSGEGRAMMENI\n\
1F8B; F; 1F03 03B9; # GREEK CAPITAL LETTER ALPHA WITH DASIA AND VARIA AND PROSGEGRAMMENI\n\
1F8C; S; 1F84; # GREEK CAPITAL LETTER ALPHA WITH PSILI AND OXIA AND PROSGEGRAMMENI\n\
1F8C; F; 1F04 03B9; # GREEK CAPITAL LETTER ALPHA WITH PSILI AND OXIA AND PROSGEGRAMMENI\n\
1F8D; S; 1F85; # GREEK CAPITAL LETTER ALPHA WITH DASIA AND OXIA AND PROSGEGRAMMENI\n";

pub const CASE_FOLDING_19: &'static str = "1F8D; F; 1F05 03B9; # GREEK CAPITAL LETTER ALPHA WITH DASIA AND OXIA AND PROSGEGRAMMENI\n\
1F8E; S; 1F86; # GREEK CAPITAL LETTER ALPHA WITH PSILI AND PERISPOMENI AND PROSGEGRAMMENI\n\
1F8E; F; 1F06 03B9; # GREEK CAPITAL LETTER ALPHA WITH PSILI AND PERISPOMENI AND PROSGEGRAMMENI\n\
1F8F; S; 1F87; # GREEK CAPITAL LETTER ALPHA WITH DASIA AND PERISPOMENI AND PROSGEGRAMMENI\n\
1F8F; F; 1F07 03B9; # GREEK CAPITAL LETTER ALPHA WITH DASIA AND PERISPOMENI AND PROSGEGRAMMENI\n\
1F90; F; 1F20 03B9; # GREEK SMALL LETTER ETA WITH PSILI AND YPOGEGRAMMENI\n\
1F91; F; 1F21 03B9; # GREEK SMALL LETTER ETA WITH DASIA AND YPOGEGRAMMENI\n\
1F92; F; 1F22 03B9; # GREEK SMALL LETTER ETA WITH PSILI AND VARIA AND YPOGEGRAMMENI\n\
1F93; F; 1F23 03B9; # GREEK SMALL LETTER ETA WITH DASIA AND VARIA AND YPOGEGRAMMENI\n\
1F94; F; 1F24 03B9; # GREEK SMALL LETTER ETA WITH PSILI AND OXIA AND YPOGEGRAMMENI\n\
1F95; F; 1F25 03B9; # GREEK SMALL LETTER ETA WITH DASIA AND OXIA AND YPOGEGRAMMENI\n\
1F96; F; 1F26 03B9; # GREEK SMALL LETTER ETA WITH PSILI AND PERISPOMENI AND YPOGEGRAMMENI\n\
1F97; F; 1F27 03B9; # GREEK SMALL LETTER ETA WITH DASIA AND PERISPOMENI AND YPOGEGRAMMENI\n\
1F98; S; 1F90; # GREEK CAPITAL LETTER ETA WITH PSILI AND PROSGEGRAMMENI\n\
1F98; F; 1F20 03B9; # GREEK CAPITAL LETTER ETA WITH PSILI AND PROSGEGRAMMENI\n\
1F99; S; 1F91; # GREEK CAPITAL LETTER ETA WITH DASIA AND PROSGEGRAMMENI\n\
1F99; F; 1F21 03B9; # GREEK CAPITAL LETTER ETA WITH DASIA AND PROSGEGRAMMENI\n\
1F9A; S; 1F92; # GREEK CAPITAL LETTER ETA WITH PSILI AND VARIA AND PROSGEGRAMMENI\n\
1F9A; F; 1F22 03B9; # GREEK CAPITAL LETTER ETA WITH PSILI AND VARIA AND PROSGEGRAMMENI\n\
1F9B; S; 1F93; # GREEK CAPITAL LETTER ETA WITH DASIA AND VARIA AND PROSGEGRAMMENI\n\
1F9B; F; 1F23 03B9; # GREEK CAPITAL LETTER ETA WITH DASIA AND VARIA AND PROSGEGRAMMENI\n\
1F9C; S; 1F94; # GREEK CAPITAL LETTER ETA WITH PSILI AND OXIA AND PROSGEGRAMMENI\n\
1F9C; F; 1F24 03B9; # GREEK CAPITAL LETTER ETA WITH PSILI AND OXIA AND PROSGEGRAMMENI\n\
1F9D; S; 1F95; # GREEK CAPITAL LETTER ETA WITH DASIA AND OXIA AND PROSGEGRAMMENI\n\
1F9D; F; 1F25 03B9; # GREEK CAPITAL LETTER ETA WITH DASIA AND OXIA AND PROSGEGRAMMENI\n\
1F9E; S; 1F96; # GREEK CAPITAL LETTER ETA WITH PSILI AND PERISPOMENI AND PROSGEGRAMMENI\n\
1F9E; F; 1F26 03B9; # GREEK CAPITAL LETTER ETA WITH PSILI AND PERISPOMENI AND PROSGEGRAMMENI\n\
1F9F; S; 1F97; # GREEK CAPITAL LETTER ETA WITH DASIA AND PERISPOMENI AND PROSGEGRAMMENI\n\
1F9F; F; 1F27 03B9; # GREEK CAPITAL LETTER ETA WITH DASIA AND PERISPOMENI AND PROSGEGRAMMENI\n\
1FA0; F; 1F60 03B9; # GREEK SMALL LETTER OMEGA WITH PSILI AND YPOGEGRAMMENI\n\
1FA1; F; 1F61 03B9; # GREEK SMALL LETTER OMEGA WITH DASIA AND YPOGEGRAMMENI\n\
1FA2; F; 1F62 03B9; # GREEK SMALL LETTER OMEGA WITH PSILI AND VARIA AND YPOGEGRAMMENI\n\
1FA3; F; 1F63 03B9; # GREEK SMALL LETTER OMEGA WITH DASIA AND VARIA AND YPOGEGRAMMENI\n\
1FA4; F; 1F64 03B9; # GREEK SMALL LETTER OMEGA WITH PSILI AND OXIA AND YPOGEGRAMMENI\n\
1FA5; F; 1F65 03B9; # GREEK SMALL LETTER OMEGA WITH DASIA AND OXIA AND YPOGEGRAMMENI\n\
1FA6; F; 1F66 03B9; # GREEK SMALL LETTER OMEGA WITH PSILI AND PERISPOMENI AND YPOGEGRAMMENI\n\
1FA7; F; 1F67 03B9; # GREEK SMALL LETTER OMEGA WITH DASIA AND PERISPOMENI AND YPOGEGRAMMENI\n\
1FA8; S; 1FA0; # GREEK CAPITAL LETTER OMEGA WITH PSILI AND PROSGEGRAMMENI\n\
1FA8; F; 1F60 03B9; # GREEK CAPITAL LETTER OMEGA WITH PSILI AND PROSGEGRAMMENI\n\
1FA9; S; 1FA1; # GREEK CAPITAL LETTER OMEGA WITH DASIA AND PROSGEGRAMMENI\n";

pub const CASE_FOLDING_20: &'static str = "1FA9; F; 1F61 03B9; # GREEK CAPITAL LETTER OMEGA WITH DASIA AND PROSGEGRAMMENI\n\
1FAA; S; 1FA2; # GREEK CAPITAL LETTER OMEGA WITH PSILI AND VARIA AND PROSGEGRAMMENI\n\
1FAA; F; 1F62 03B9; # GREEK CAPITAL LETTER OMEGA WITH PSILI AND VARIA AND PROSGEGRAMMENI\n\
1FAB; S; 1FA3; # GREEK CAPITAL LETTER OMEGA WITH DASIA AND VARIA AND PROSGEGRAMMENI\n\
1FAB; F; 1F63 03B9; # GREEK CAPITAL LETTER OMEGA WITH DASIA AND VARIA AND PROSGEGRAMMENI\n\
1FAC; S; 1FA4; # GREEK CAPITAL LETTER OMEGA WITH PSILI AND OXIA AND PROSGEGRAMMENI\n\
1FAC; F; 1F64 03B9; # GREEK CAPITAL LETTER OMEGA WITH PSILI AND OXIA AND PROSGEGRAMMENI\n\
1FAD; S; 1FA5; # GREEK CAPITAL LETTER OMEGA WITH DASIA AND OXIA AND PROSGEGRAMMENI\n\
1FAD; F; 1F65 03B9; # GREEK CAPITAL LETTER OMEGA WITH DASIA AND OXIA AND PROSGEGRAMMENI\n\
1FAE; S; 1FA6; # GREEK CAPITAL LETTER OMEGA WITH PSILI AND PERISPOMENI AND PROSGEGRAMMENI\n\
1FAE; F; 1F66 03B9; # GREEK CAPITAL LETTER OMEGA WITH PSILI AND PERISPOMENI AND PROSGEGRAMMENI\n\
1FAF; S; 1FA7; # GREEK CAPITAL LETTER OMEGA WITH DASIA AND PERISPOMENI AND PROSGEGRAMMENI\n\
1FAF; F; 1F67 03B9; # GREEK CAPITAL LETTER OMEGA WITH DASIA AND PERISPOMENI AND PROSGEGRAMMENI\n\
1FB2; F; 1F70 03B9; # GREEK SMALL LETTER ALPHA WITH VARIA AND YPOGEGRAMMENI\n\
1FB3; F; 03B1 03B9; # GREEK SMALL LETTER ALPHA WITH YPOGEGRAMMENI\n\
1FB4; F; 03AC 03B9; # GREEK SMALL LETTER ALPHA WITH OXIA AND YPOGEGRAMMENI\n\
1FB6; F; 03B1 0342; # GREEK SMALL LETTER ALPHA WITH PERISPOMENI\n\
1FB7; F; 03B1 0342 03B9; # GREEK SMALL LETTER ALPHA WITH PERISPOMENI AND YPOGEGRAMMENI\n\
1FB8; C; 1FB0; # GREEK CAPITAL LETTER ALPHA WITH VRACHY\n\
1FB9; C; 1FB1; # GREEK CAPITAL LETTER ALPHA WITH MACRON\n\
1FBA; C; 1F70; # GREEK CAPITAL LETTER ALPHA WITH VARIA\n\
1FBB; C; 1F71; # GREEK CAPITAL LETTER ALPHA WITH OXIA\n\
1FBC; S; 1FB3; # GREEK CAPITAL LETTER ALPHA WITH PROSGEGRAMMENI\n\
1FBC; F; 03B1 03B9; # GREEK CAPITAL LETTER ALPHA WITH PROSGEGRAMMENI\n\
1FBE; C; 03B9; # GREEK PROSGEGRAMMENI\n\
1FC2; F; 1F74 03B9; # GREEK SMALL LETTER ETA WITH VARIA AND YPOGEGRAMMENI\n\
1FC3; F; 03B7 03B9; # GREEK SMALL LETTER ETA WITH YPOGEGRAMMENI\n\
1FC4; F; 03AE 03B9; # GREEK SMALL LETTER ETA WITH OXIA AND YPOGEGRAMMENI\n\
1FC6; F; 03B7 0342; # GREEK SMALL LETTER ETA WITH PERISPOMENI\n\
1FC7; F; 03B7 0342 03B9; # GREEK SMALL LETTER ETA WITH PERISPOMENI AND YPOGEGRAMMENI\n\
1FC8; C; 1F72; # GREEK CAPITAL LETTER EPSILON WITH VARIA\n\
1FC9; C; 1F73; # GREEK CAPITAL LETTER EPSILON WITH OXIA\n\
1FCA; C; 1F74; # GREEK CAPITAL LETTER ETA WITH VARIA\n\
1FCB; C; 1F75; # GREEK CAPITAL LETTER ETA WITH OXIA\n\
1FCC; S; 1FC3; # GREEK CAPITAL LETTER ETA WITH PROSGEGRAMMENI\n\
1FCC; F; 03B7 03B9; # GREEK CAPITAL LETTER ETA WITH PROSGEGRAMMENI\n\
1FD2; F; 03B9 0308 0300; # GREEK SMALL LETTER IOTA WITH DIALYTIKA AND VARIA\n\
1FD3; F; 03B9 0308 0301; # GREEK SMALL LETTER IOTA WITH DIALYTIKA AND OXIA\n\
1FD6; F; 03B9 0342; # GREEK SMALL LETTER IOTA WITH PERISPOMENI\n\
1FD7; F; 03B9 0308 0342; # GREEK SMALL LETTER IOTA WITH DIALYTIKA AND PERISPOMENI\n";

pub const CASE_FOLDING_21: &'static str = "1FD8; C; 1FD0; # GREEK CAPITAL LETTER IOTA WITH VRACHY\n\
1FD9; C; 1FD1; # GREEK CAPITAL LETTER IOTA WITH MACRON\n\
1FDA; C; 1F76; # GREEK CAPITAL LETTER IOTA WITH VARIA\n\
1FDB; C; 1F77; # GREEK CAPITAL LETTER IOTA WITH OXIA\n\
1FE2; F; 03C5 0308 0300; # GREEK SMALL LETTER UPSILON WITH DIALYTIKA AND VARIA\n\
1FE3; F; 03C5 0308 0301; # GREEK SMALL LETTER UPSILON WITH DIALYTIKA AND OXIA\n\
1FE4; F; 03C1 0313; # GREEK SMALL LETTER RHO WITH PSILI\n\
1FE6; F; 03C5 0342; # GREEK SMALL LETTER UPSILON WITH PERISPOMENI\n\
1FE7; F; 03C5 0308 0342; # GREEK SMALL LETTER UPSILON WITH DIALYTIKA AND PERISPOMENI\n\
1FE8; C; 1FE0; # GREEK CAPITAL LETTER UPSILON WITH VRACHY\n\
1FE9; C; 1FE1; # GREEK CAPITAL LETTER UPSILON WITH MACRON\n\
1FEA; C; 1F7A; # GREEK CAPITAL LETTER UPSILON WITH VARIA\n\
1FEB; C; 1F7B; # GREEK CAPITAL LETTER UPSILON WITH OXIA\n\
1FEC; C; 1FE5; # GREEK CAPITAL LETTER RHO WITH DASIA\n\
1FF2; F; 1F7C 03B9; # GREEK SMALL LETTER OMEGA WITH VARIA AND YPOGEGRAMMENI\n\
1FF3; F; 03C9 03B9; # GREEK SMALL LETTER OMEGA WITH YPOGEGRAMMENI\n\
1FF4; F; 03CE 03B9; # GREEK SMALL LETTER OMEGA WITH OXIA AND YPOGEGRAMMENI\n\
1FF6; F; 03C9 0342; # GREEK SMALL LETTER OMEGA WITH PERISPOMENI\n\
1FF7; F; 03C9 0342 03B9; # GREEK SMALL LETTER OMEGA WITH PERISPOMENI AND YPOGEGRAMMENI\n\
1FF8; C; 1F78; # GREEK CAPITAL LETTER OMICRON WITH VARIA\n\
1FF9; C; 1F79; # GREEK CAPITAL LETTER OMICRON WITH OXIA\n\
1FFA; C; 1F7C; # GREEK CAPITAL LETTER OMEGA WITH VARIA\n\
1FFB; C; 1F7D; # GREEK CAPITAL LETTER OMEGA WITH OXIA\n\
1FFC; S; 1FF3; # GREEK CAPITAL LETTER OMEGA WITH PROSGEGRAMMENI\n\
1FFC; F; 03C9 03B9; # GREEK CAPITAL LETTER OMEGA WITH PROSGEGRAMMENI\n\
2126; C; 03C9; # OHM SIGN\n\
212A; C; 006B; # KELVIN SIGN\n\
212B; C; 00E5; # ANGSTROM SIGN\n\
2132; C; 214E; # TURNED CAPITAL F\n\
2183; C; 2184; # ROMAN NUMERAL REVERSED ONE HUNDRED\n\
2160; C; 2170; # ROMAN NUMERAL ONE\n\
2161; C; 2171; # ROMAN NUMERAL TWO\n\
2162; C; 2172; # ROMAN NUMERAL THREE\n\
2163; C; 2173; # ROMAN NUMERAL FOUR\n\
2164; C; 2174; # ROMAN NUMERAL FIVE\n\
2165; C; 2175; # ROMAN NUMERAL SIX\n\
2166; C; 2176; # ROMAN NUMERAL SEVEN\n\
2167; C; 2177; # ROMAN NUMERAL EIGHT\n\
2168; C; 2178; # ROMAN NUMERAL NINE\n\
2169; C; 2179; # ROMAN NUMERAL TEN\n";

pub const CASE_FOLDING_22: &'static str = "216A; C; 217A; # ROMAN NUMERAL ELEVEN\n\
216B; C; 217B; # ROMAN NUMERAL TWELVE\n\
216C; C; 217C; # ROMAN NUMERAL FIFTY\n\
216D; C; 217D; # ROMAN NUMERAL ONE HUNDRED\n\
216E; C; 217E; # ROMAN NUMERAL FIVE HUNDRED\n\
216F; C; 217F; # ROMAN NUMERAL ONE THOUSAND\n\
24B6; C; 24D0; # CIRCLED LATIN CAPITAL LETTER A\n\
24B7; C; 24D1; # CIRCLED LATIN CAPITAL LETTER B\n\
24B8; C; 24D2; # CIRCLED LATIN CAPITAL LETTER C\n\
24B9; C; 24D3; # CIRCLED LATIN CAPITAL LETTER D\n\
24BA; C; 24D4; # CIRCLED LATIN CAPITAL LETTER E\n\
24BB; C; 24D5; # CIRCLED LATIN CAPITAL LETTER F\n\
24BC; C; 24D6; # CIRCLED LATIN CAPITAL LETTER G\n\
24BD; C; 24D7; # CIRCLED LATIN CAPITAL LETTER H\n\
24BE; C; 24D8; # CIRCLED LATIN CAPITAL LETTER I\n\
24BF; C; 24D9; # CIRCLED LATIN CAPITAL LETTER J\n\
24C0; C; 24DA; # CIRCLED LATIN CAPITAL LETTER K\n\
24C1; C; 24DB; # CIRCLED LATIN CAPITAL LETTER L\n\
24C2; C; 24DC; # CIRCLED LATIN CAPITAL LETTER M\n\
24C3; C; 24DD; # CIRCLED LATIN CAPITAL LETTER N\n\
24C4; C; 24DE; # CIRCLED LATIN CAPITAL LETTER O\n\
24C5; C; 24DF; # CIRCLED LATIN CAPITAL LETTER P\n\
24C6; C; 24E0; # CIRCLED LATIN CAPITAL LETTER Q\n\
24C7; C; 24E1; # CIRCLED LATIN CAPITAL LETTER R\n\
24C8; C; 24E2; # CIRCLED LATIN CAPITAL LETTER S\n\
24C9; C; 24E3; # CIRCLED LATIN CAPITAL LETTER T\n\
24CA; C; 24E4; # CIRCLED LATIN CAPITAL LETTER U\n\
24CB; C; 24E5; # CIRCLED LATIN CAPITAL LETTER V\n\
24CC; C; 24E6; # CIRCLED LATIN CAPITAL LETTER W\n\
24CD; C; 24E7; # CIRCLED LATIN CAPITAL LETTER X\n\
24CE; C; 24E8; # CIRCLED LATIN CAPITAL LETTER Y\n\
24CF; C; 24E9; # CIRCLED LATIN CAPITAL LETTER Z\n\
2C00; C; 2C30; # GLAGOLITIC CAPITAL LETTER AZU\n\
2C01; C; 2C31; # GLAGOLITIC CAPITAL LETTER BUKY\n\
2C02; C; 2C32; # GLAGOLITIC CAPITAL LETTER VEDE\n\
2C03; C; 2C33; # GLAGOLITIC CAPITAL LETTER GLAGOLI\n\
2C04; C; 2C34; # GLAGOLITIC CAPITAL LETTER DOBRO\n\
2C05; C; 2C35; # GLAGOLITIC CAPITAL LETTER YESTU\n\
2C06; C; 2C36; # GLAGOLITIC CAPITAL LETTER ZHIVETE\n\
2C07; C; 2C37; # GLAGOLITIC CAPITAL LETTER DZELO\n";

pub const CASE_FOLDING_23: &'static str = "2C08; C; 2C38; # GLAGOLITIC CAPITAL LETTER ZEMLJA\n\
2C09; C; 2C39; # GLAGOLITIC CAPITAL LETTER IZHE\n\
2C0A; C; 2C3A; # GLAGOLITIC CAPITAL LETTER INITIAL IZHE\n\
2C0B; C; 2C3B; # GLAGOLITIC CAPITAL LETTER I\n\
2C0C; C; 2C3C; # GLAGOLITIC CAPITAL LETTER DJERVI\n\
2C0D; C; 2C3D; # GLAGOLITIC CAPITAL LETTER KAKO\n\
2C0E; C; 2C3E; # GLAGOLITIC CAPITAL LETTER LJUDIJE\n\
2C0F; C; 2C3F; # GLAGOLITIC CAPITAL LETTER MYSLITE\n\
2C10; C; 2C40; # GLAGOLITIC CAPITAL LETTER NASHI\n\
2C11; C; 2C41; # GLAGOLITIC CAPITAL LETTER ONU\n\
2C12; C; 2C42; # GLAGOLITIC CAPITAL LETTER POKOJI\n\
2C13; C; 2C43; # GLAGOLITIC CAPITAL LETTER RITSI\n\
2C14; C; 2C44; # GLAGOLITIC CAPITAL LETTER SLOVO\n\
2C15; C; 2C45; # GLAGOLITIC CAPITAL LETTER TVRIDO\n\
2C16; C; 2C46; # GLAGOLITIC CAPITAL LETTER UKU\n\
2C17; C; 2C47; # GLAGOLITIC CAPITAL LETTER FRITU\n\
2C18; C; 2C48; # GLAGOLITIC CAPITAL LETTER HERU\n\
2C19; C; 2C49; # GLAGOLITIC CAPITAL LETTER OTU\n\
2C1A; C; 2C4A; # GLAGOLITIC CAPITAL LETTER PE\n\
2C1B; C; 2C4B; # GLAGOLITIC CAPITAL LETTER SHTA\n\
2C1C; C; 2C4C; # GLAGOLITIC CAPITAL LETTER TSI\n\
2C1D; C; 2C4D; # GLAGOLITIC CAPITAL LETTER CHRIVI\n\
2C1E; C; 2C4E; # GLAGOLITIC CAPITAL LETTER SHA\n\
2C1F; C; 2C4F; # GLAGOLITIC CAPITAL LETTER YERU\n\
2C20; C; 2C50; # GLAGOLITIC CAPITAL LETTER YERI\n\
2C21; C; 2C51; # GLAGOLITIC CAPITAL LETTER YATI\n\
2C22; C; 2C52; # GLAGOLITIC CAPITAL LETTER SPIDERY HA\n\
2C23; C; 2C53; # GLAGOLITIC CAPITAL LETTER YU\n\
2C24; C; 2C54; # GLAGOLITIC CAPITAL LETTER SMALL YUS\n\
2C25; C; 2C55; # GLAGOLITIC CAPITAL LETTER SMALL YUS WITH TAIL\n\
2C26; C; 2C56; # GLAGOLITIC CAPITAL LETTER YO\n\
2C27; C; 2C57; # GLAGOLITIC CAPITAL LETTER IOTATED SMALL YUS\n\
2C28; C; 2C58; # GLAGOLITIC CAPITAL LETTER BIG YUS\n\
2C29; C; 2C59; # GLAGOLITIC CAPITAL LETTER IOTATED BIG YUS\n\
2C2A; C; 2C5A; # GLAGOLITIC CAPITAL LETTER FITA\n\
2C2B; C; 2C5B; # GLAGOLITIC CAPITAL LETTER IZHITSA\n\
2C2C; C; 2C5C; # GLAGOLITIC CAPITAL LETTER SHTAPIC\n\
2C2D; C; 2C5D; # GLAGOLITIC CAPITAL LETTER TROKUTASTI A\n\
2C2E; C; 2C5E; # GLAGOLITIC CAPITAL LETTER LATINATE MYSLITE\n\
2C60; C; 2C61; # LATIN CAPITAL LETTER L WITH DOUBLE BAR\n";

pub const CASE_FOLDING_24: &'static str = "2C62; C; 026B; # LATIN CAPITAL LETTER L WITH MIDDLE TILDE\n\
2C63; C; 1D7D; # LATIN CAPITAL LETTER P WITH STROKE\n\
2C64; C; 027D; # LATIN CAPITAL LETTER R WITH TAIL\n\
2C67; C; 2C68; # LATIN CAPITAL LETTER H WITH DESCENDER\n\
2C69; C; 2C6A; # LATIN CAPITAL LETTER K WITH DESCENDER\n\
2C6B; C; 2C6C; # LATIN CAPITAL LETTER Z WITH DESCENDER\n\
2C6D; C; 0251; # LATIN CAPITAL LETTER ALPHA\n\
2C6E; C; 0271; # LATIN CAPITAL LETTER M WITH HOOK\n\
2C6F; C; 0250; # LATIN CAPITAL LETTER TURNED A\n\
2C72; C; 2C73; # LATIN CAPITAL LETTER W WITH HOOK\n\
2C75; C; 2C76; # LATIN CAPITAL LETTER HALF H\n\
2C80; C; 2C81; # COPTIC CAPITAL LETTER ALFA\n\
2C82; C; 2C83; # COPTIC CAPITAL LETTER VIDA\n\
2C84; C; 2C85; # COPTIC CAPITAL LETTER GAMMA\n\
2C86; C; 2C87; # COPTIC CAPITAL LETTER DALDA\n\
2C88; C; 2C89; # COPTIC CAPITAL LETTER EIE\n\
2C8A; C; 2C8B; # COPTIC CAPITAL LETTER SOU\n\
2C8C; C; 2C8D; # COPTIC CAPITAL LETTER ZATA\n\
2C8E; C; 2C8F; # COPTIC CAPITAL LETTER HATE\n\
2C90; C; 2C91; # COPTIC CAPITAL LETTER THETHE\n\
2C92; C; 2C93; # COPTIC CAPITAL LETTER IAUDA\n\
2C94; C; 2C95; # COPTIC CAPITAL LETTER KAPA\n\
2C96; C; 2C97; # COPTIC CAPITAL LETTER LAULA\n\
2C98; C; 2C99; # COPTIC CAPITAL LETTER MI\n\
2C9A; C; 2C9B; # COPTIC CAPITAL LETTER NI\n\
2C9C; C; 2C9D; # COPTIC CAPITAL LETTER KSI\n\
2C9E; C; 2C9F; # COPTIC CAPITAL LETTER O\n\
2CA0; C; 2CA1; # COPTIC CAPITAL LETTER PI\n\
2CA2; C; 2CA3; # COPTIC CAPITAL LETTER RO\n\
2CA4; C; 2CA5; # COPTIC CAPITAL LETTER SIMA\n\
2CA6; C; 2CA7; # COPTIC CAPITAL LETTER TAU\n\
2CA8; C; 2CA9; # COPTIC CAPITAL LETTER UA\n\
2CAA; C; 2CAB; # COPTIC CAPITAL LETTER FI\n\
2CAC; C; 2CAD; # COPTIC CAPITAL LETTER KHI\n\
2CAE; C; 2CAF; # COPTIC CAPITAL LETTER PSI\n\
2CB0; C; 2CB1; # COPTIC CAPITAL LETTER OOU\n\
2CB2; C; 2CB3; # COPTIC CAPITAL LETTER DIALECT-P ALEF\n\
2CB4; C; 2CB5; # COPTIC CAPITAL LETTER OLD COPTIC AIN\n\
2CB6; C; 2CB7; # COPTIC CAPITAL LETTER CRYPTOGRAMMIC EIE\n\
2CB8; C; 2CB9; # COPTIC CAPITAL LETTER DIALECT-P KAPA\n";

pub const CASE_FOLDING_25: &'static str = "2CBA; C; 2CBB; # COPTIC CAPITAL LETTER DIALECT-P NI\n\
2CBC; C; 2CBD; # COPTIC CAPITAL LETTER CRYPTOGRAMMIC NI\n\
2CBE; C; 2CBF; # COPTIC CAPITAL LETTER OLD COPTIC OOU\n\
2CC0; C; 2CC1; # COPTIC CAPITAL LETTER SAMPI\n\
2CC2; C; 2CC3; # COPTIC CAPITAL LETTER CROSSED SHEI\n\
2CC4; C; 2CC5; # COPTIC CAPITAL LETTER OLD COPTIC SHEI\n\
2CC6; C; 2CC7; # COPTIC CAPITAL LETTER OLD COPTIC ESH\n\
2CC8; C; 2CC9; # COPTIC CAPITAL LETTER AKHMIMIC KHEI\n\
2CCA; C; 2CCB; # COPTIC CAPITAL LETTER DIALECT-P HORI\n\
2CCC; C; 2CCD; # COPTIC CAPITAL LETTER OLD COPTIC HORI\n\
2CCE; C; 2CCF; # COPTIC CAPITAL LETTER OLD COPTIC HA\n\
2CD0; C; 2CD1; # COPTIC CAPITAL LETTER L-SHAPED HA\n\
2CD2; C; 2CD3; # COPTIC CAPITAL LETTER OLD COPTIC HEI\n\
2CD4; C; 2CD5; # COPTIC CAPITAL LETTER OLD COPTIC HAT\n\
2CD6; C; 2CD7; # COPTIC CAPITAL LETTER OLD COPTIC GANGIA\n\
2CD8; C; 2CD9; # COPTIC CAPITAL LETTER OLD COPTIC DJA\n\
2CDA; C; 2CDB; # COPTIC CAPITAL LETTER OLD COPTIC SHIMA\n\
2CDC; C; 2CDD; # COPTIC CAPITAL LETTER OLD NUBIAN SHIMA\n\
2CDE; C; 2CDF; # COPTIC CAPITAL LETTER OLD NUBIAN NGI\n\
2CE0; C; 2CE1; # COPTIC CAPITAL LETTER OLD NUBIAN NYI\n\
2CE2; C; 2CE3; # COPTIC CAPITAL LETTER OLD NUBIAN WAU\n\
A640; C; A641; # CYRILLIC CAPITAL LETTER ZEMLYA\n\
A642; C; A643; # CYRILLIC CAPITAL LETTER DZELO\n\
A644; C; A645; # CYRILLIC CAPITAL LETTER REVERSED DZE\n\
A646; C; A647; # CYRILLIC CAPITAL LETTER IOTA\n\
A648; C; A649; # CYRILLIC CAPITAL LETTER DJERV\n\
A64A; C; A64B; # CYRILLIC CAPITAL LETTER MONOGRAPH UK\n\
A64C; C; A64D; # CYRILLIC CAPITAL LETTER BROAD OMEGA\n\
A64E; C; A64F; # CYRILLIC CAPITAL LETTER NEUTRAL YER\n\
A650; C; A651; # CYRILLIC CAPITAL LETTER YERU WITH BACK YER\n\
A652; C; A653; # CYRILLIC CAPITAL LETTER IOTIFIED YAT\n\
A654; C; A655; # CYRILLIC CAPITAL LETTER REVERSED YU\n\
A656; C; A657; # CYRILLIC CAPITAL LETTER IOTIFIED A\n\
A658; C; A659; # CYRILLIC CAPITAL LETTER CLOSED LITTLE YUS\n\
A65A; C; A65B; # CYRILLIC CAPITAL LETTER BLENDED YUS\n\
A65C; C; A65D; # CYRILLIC CAPITAL LETTER IOTIFIED CLOSED LITTLE YUS\n\
A662; C; A663; # CYRILLIC CAPITAL LETTER SOFT DE\n\
A664; C; A665; # CYRILLIC CAPITAL LETTER SOFT EL\n\
A666; C; A667; # CYRILLIC CAPITAL LETTER SOFT EM\n\
A668; C; A669; # CYRILLIC CAPITAL LETTER MONOCULAR O\n";

pub const CASE_FOLDING_26: &'static str = "A66A; C; A66B; # CYRILLIC CAPITAL LETTER BINOCULAR O\n\
A66C; C; A66D; # CYRILLIC CAPITAL LETTER DOUBLE MONOCULAR O\n\
A680; C; A681; # CYRILLIC CAPITAL LETTER DWE\n\
A682; C; A683; # CYRILLIC CAPITAL LETTER DZWE\n\
A684; C; A685; # CYRILLIC CAPITAL LETTER ZHWE\n\
A686; C; A687; # CYRILLIC CAPITAL LETTER CCHE\n\
A688; C; A689; # CYRILLIC CAPITAL LETTER DZZE\n\
A68A; C; A68B; # CYRILLIC CAPITAL LETTER TE WITH MIDDLE HOOK\n\
A68C; C; A68D; # CYRILLIC CAPITAL LETTER TWE\n\
A68E; C; A68F; # CYRILLIC CAPITAL LETTER TSWE\n\
A690; C; A691; # CYRILLIC CAPITAL LETTER TSSE\n\
A692; C; A693; # CYRILLIC CAPITAL LETTER TCHE\n\
A694; C; A695; # CYRILLIC CAPITAL LETTER HWE\n\
A696; C; A697; # CYRILLIC CAPITAL LETTER SHWE\n\
A722; C; A723; # LATIN CAPITAL LETTER EGYPTOLOGICAL ALEF\n\
A724; C; A725; # LATIN CAPITAL LETTER EGYPTOLOGICAL AIN\n\
A726; C; A727; # LATIN CAPITAL LETTER HENG\n\
A728; C; A729; # LATIN CAPITAL LETTER TZ\n\
A72A; C; A72B; # LATIN CAPITAL LETTER TRESILLO\n\
A72C; C; A72D; # LATIN CAPITAL LETTER CUATRILLO\n\
A72E; C; A72F; # LATIN CAPITAL LETTER CUATRILLO WITH COMMA\n\
A732; C; A733; # LATIN CAPITAL LETTER AA\n\
A734; C; A735; # LATIN CAPITAL LETTER AO\n\
A736; C; A737; # LATIN CAPITAL LETTER AU\n\
A738; C; A739; # LATIN CAPITAL LETTER AV\n\
A73A; C; A73B; # LATIN CAPITAL LETTER AV WITH HORIZONTAL BAR\n\
A73C; C; A73D; # LATIN CAPITAL LETTER AY\n\
A73E; C; A73F; # LATIN CAPITAL LETTER REVERSED C WITH DOT\n\
A740; C; A741; # LATIN CAPITAL LETTER K WITH STROKE\n\
A742; C; A743; # LATIN CAPITAL LETTER K WITH DIAGONAL STROKE\n\
A744; C; A745; # LATIN CAPITAL LETTER K WITH STROKE AND DIAGONAL STROKE\n\
A746; C; A747; # LATIN CAPITAL LETTER BROKEN L\n\
A748; C; A749; # LATIN CAPITAL LETTER L WITH HIGH STROKE\n\
A74A; C; A74B; # LATIN CAPITAL LETTER O WITH LONG STROKE OVERLAY\n\
A74C; C; A74D; # LATIN CAPITAL LETTER O WITH LOOP\n\
A74E; C; A74F; # LATIN CAPITAL LETTER OO\n\
A750; C; A751; # LATIN CAPITAL LETTER P WITH STROKE THROUGH DESCENDER\n\
A752; C; A753; # LATIN CAPITAL LETTER P WITH FLOURISH\n\
A754; C; A755; # LATIN CAPITAL LETTER P WITH SQUIRREL TAIL\n\
A756; C; A757; # LATIN CAPITAL LETTER Q WITH STROKE THROUGH DESCENDER\n";

pub const CASE_FOLDING_27: &'static str = "A758; C; A759; # LATIN CAPITAL LETTER Q WITH DIAGONAL STROKE\n\
A75A; C; A75B; # LATIN CAPITAL LETTER R ROTUNDA\n\
A75C; C; A75D; # LATIN CAPITAL LETTER RUM ROTUNDA\n\
A75E; C; A75F; # LATIN CAPITAL LETTER V WITH DIAGONAL STROKE\n\
A760; C; A761; # LATIN CAPITAL LETTER VY\n\
A762; C; A763; # LATIN CAPITAL LETTER VISIGOTHIC Z\n\
A764; C; A765; # LATIN CAPITAL LETTER THORN WITH STROKE\n\
A766; C; A767; # LATIN CAPITAL LETTER THORN WITH STROKE THROUGH DESCENDER\n\
A768; C; A769; # LATIN CAPITAL LETTER VEND\n\
A76A; C; A76B; # LATIN CAPITAL LETTER ET\n\
A76C; C; A76D; # LATIN CAPITAL LETTER IS\n\
A76E; C; A76F; # LATIN CAPITAL LETTER CON\n\
A779; C; A77A; # LATIN CAPITAL LETTER INSULAR D\n\
A77B; C; A77C; # LATIN CAPITAL LETTER INSULAR F\n\
A77D; C; 1D79; # LATIN CAPITAL LETTER INSULAR G\n\
A77E; C; A77F; # LATIN CAPITAL LETTER TURNED INSULAR G\n\
A780; C; A781; # LATIN CAPITAL LETTER TURNED L\n\
A782; C; A783; # LATIN CAPITAL LETTER INSULAR R\n\
A784; C; A785; # LATIN CAPITAL LETTER INSULAR S\n\
A786; C; A787; # LATIN CAPITAL LETTER INSULAR T\n\
A78B; C; A78C; # LATIN CAPITAL LETTER SALTILLO\n\
FF21; C; FF41; # FULLWIDTH LATIN CAPITAL LETTER A\n\
FF22; C; FF42; # FULLWIDTH LATIN CAPITAL LETTER B\n\
FF23; C; FF43; # FULLWIDTH LATIN CAPITAL LETTER C\n\
FF24; C; FF44; # FULLWIDTH LATIN CAPITAL LETTER D\n\
FF25; C; FF45; # FULLWIDTH LATIN CAPITAL LETTER E\n\
FF26; C; FF46; # FULLWIDTH LATIN CAPITAL LETTER F\n\
FF27; C; FF47; # FULLWIDTH LATIN CAPITAL LETTER G\n\
FF28; C; FF48; # FULLWIDTH LATIN CAPITAL LETTER H\n\
FF29; C; FF49; # FULLWIDTH LATIN CAPITAL LETTER I\n\
FF2A; C; FF4A; # FULLWIDTH LATIN CAPITAL LETTER J\n\
FF2B; C; FF4B; # FULLWIDTH LATIN CAPITAL LETTER K\n\
FF2C; C; FF4C; # FULLWIDTH LATIN CAPITAL LETTER L\n\
FF2D; C; FF4D; # FULLWIDTH LATIN CAPITAL LETTER M\n\
FF2E; C; FF4E; # FULLWIDTH LATIN CAPITAL LETTER N\n\
FF2F; C; FF4F; # FULLWIDTH LATIN CAPITAL LETTER O\n\
FF30; C; FF50; # FULLWIDTH LATIN CAPITAL LETTER P\n\
FF31; C; FF51; # FULLWIDTH LATIN CAPITAL LETTER Q\n\
FF32; C; FF52; # FULLWIDTH LATIN CAPITAL LETTER R\n\
FF33; C; FF53; # FULLWIDTH LATIN CAPITAL LETTER S\n";

pub const CASE_FOLDING_28: &'static str = "FF34; C; FF54; # FULLWIDTH LATIN CAPITAL LETTER T\n\
FF35; C; FF55; # FULLWIDTH LATIN CAPITAL LETTER U\n\
FF36; C; FF56; # FULLWIDTH LATIN CAPITAL LETTER V\n\
FF37; C; FF57; # FULLWIDTH LATIN CAPITAL LETTER W\n\
FF38; C; FF58; # FULLWIDTH LATIN CAPITAL LETTER X\n\
FF39; C; FF59; # FULLWIDTH LATIN CAPITAL LETTER Y\n\
FF3A; C; FF5A; # FULLWIDTH LATIN CAPITAL LETTER Z\n";

/// The parts of the shipped records, in the order in which they are read.
pub open spec fn shipped_records() -> Seq<&'static str> {
    seq![
        CASE_FOLDING_01,
        CASE_FOLDING_02,
        CASE_FOLDING_03,
        CASE_FOLDING_04,
        CASE_FOLDING_05,
        CASE_FOLDING_06,
        CASE_FOLDING_07,
        CASE_FOLDING_08,
        CASE_FOLDING_09,
        CASE_FOLDING_10,
        CASE_FOLDING_11,
        CASE_FOLDING_12,
        CASE_FOLDING_13,
        CASE_FOLDING_14,
        CASE_FOLDING_15,
        CASE_FOLDING_16,
        CASE_FOLDING_17,
        CASE_FOLDING_18,
        CASE_FOLDING_19,
        CASE_FOLDING_20,
        CASE_FOLDING_21,
        CASE_FOLDING_22,
        CASE_FOLDING_23,
        CASE_FOLDING_24,
        CASE_FOLDING_25,
        CASE_FOLDING_26,
        CASE_FOLDING_27,
        CASE_FOLDING_28
    ]
}

fn records() -> (r: Vec<&'static str>)
    ensures
        r@ == shipped_records(),
{
    let r = vec![
        CASE_FOLDING_01,
        CASE_FOLDING_02,
        CASE_FOLDING_03,
        CASE_FOLDING_04,
        CASE_FOLDING_05,
        CASE_FOLDING_06,
        CASE_FOLDING_07,
        CASE_FOLDING_08,
        CASE_FOLDING_09,
        CASE_FOLDING_10,
        CASE_FOLDING_11,
        CASE_FOLDING_12,
        CASE_FOLDING_13,
        CASE_FOLDING_14,
        CASE_FOLDING_15,
        CASE_FOLDING_16,
        CASE_FOLDING_17,
        CASE_FOLDING_18,
        CASE_FOLDING_19,
        CASE_FOLDING_20,
        CASE_FOLDING_21,
        CASE_FOLDING_22,
        CASE_FOLDING_23,
        CASE_FOLDING_24,
        CASE_FOLDING_25,
        CASE_FOLDING_26,
        CASE_FOLDING_27,
        CASE_FOLDING_28
    ];
    assert(r@ =~= shipped_records());
    r
}

/// Reads the texts `parts` in order into `m`: `None` once one is malformed.
pub open spec fn read_parts(m: Map<u16, u16>, parts: Seq<&'static str>) -> Option<Map<u16, u16>>
    decreases parts.len(),
{
    if parts.len() == 0 {
        Some(m)
    } else {
        match read_parts(m, parts.drop_last()) {
            Some(m2) => scan_lines(m2, parts.last().spec_bytes(), 0, 0),
            None => None,
        }
    }
}

/// The corrections that bring the Unicode-derived table in line with the
/// platform's upper-case mapping.
pub open spec fn adjustment_list() -> Seq<(u16, u16)> {
    seq![
        (0x6bu16, 0x4bu16),
        (0x73u16, 0x53u16),
        (0xdfu16, 0xdfu16),
        (0xe5u16, 0xc5u16),
        (0x1c6u16, 0x1c4u16),
        (0x1c9u16, 0x1c7u16),
        (0x1ccu16, 0x1cau16),
        (0x1f3u16, 0x1f1u16),
        (0x3b2u16, 0x392u16),
        (0x3b5u16, 0x395u16),
        (0x3b8u16, 0x398u16),
        (0x3b9u16, 0x399u16),
        (0x3bau16, 0x39au16),
        (0x3c0u16, 0x3a0u16),
        (0x3c1u16, 0x3a1u16),
        (0x3c3u16, 0x3a3u16),
        (0x3c6u16, 0x3a6u16),
        (0x3c9u16, 0x3a9u16),
        (0x1e61u16, 0x1e60u16)
    ]
}

fn adjustments() -> (r: Vec<(u16, u16)>)
    ensures
        r@ == adjustment_list(),
{
    let r = vec![
        (0x6b, 0x4b),
        (0x73, 0x53),
        (0xdf, 0xdf),
        (0xe5, 0xc5),
        (0x1c6, 0x1c4),
        (0x1c9, 0x1c7),
        (0x1cc, 0x1ca),
        (0x1f3, 0x1f1),
        (0x3b2, 0x392),
        (0x3b5, 0x395),
        (0x3b8, 0x398),
        (0x3b9, 0x399),
        (0x3ba, 0x39a),
        (0x3c0, 0x3a0),
        (0x3c1, 0x3a1),
        (0x3c3, 0x3a3),
        (0x3c6, 0x3a6),
        (0x3c9, 0x3a9),
        (0x1e61, 0x1e60)
    ];
    assert(r@ =~= adjustment_list());
    r
}

/// The default fold table: the shipped records with the corrections laid
/// over them. The shipped records are well formed, so the first arm is the
/// one that holds; the second keeps the definition total.
pub open spec fn default_map() -> Map<u16, u16> {
    match read_parts(Map::empty(), shipped_records()) {
        Some(m) => overlay(m, adjustment_list()),
        None => overlay(Map::empty(), adjustment_list()),
    }
}

proof fn lemma_read_parts_stops(m: Map<u16, u16>, parts: Seq<&'static str>, k: int)
    requires
        0 <= k <= parts.len(),
        read_parts(m, parts.take(k)) is None,
    ensures
        read_parts(m, parts) is None,
    decreases parts.len() - k,
{
    if k == parts.len() {
        assert(parts.take(k) == parts);
    } else {
        assert(parts.take(k + 1).drop_last() == parts.take(k));
        lemma_read_parts_stops(m, parts, k + 1);
    }
}

/// Reads the shipped records; false when one of them is malformed.
fn read_shipped(map: &mut BTreeMap<u16, u16>) -> (ok: bool)
    requires
        old(map)@ == Map::<u16, u16>::empty(),
    ensures
        match read_parts(Map::empty(), shipped_records()) {
            Some(m) => ok && final(map)@ == m,
            None => !ok,
        },
{
    let parts = records();
    let mut k: usize = 0;
    while k < parts.len()
        invariant
            parts@ == shipped_records(),
            k <= parts@.len(),
            read_parts(Map::empty(), shipped_records().take(k as int)) == Some(map@),
        decreases parts@.len() - k,
    {
        assert(shipped_records().take(k + 1).drop_last() == shipped_records().take(k as int));
        if !read_records(map, parts[k]) {
            proof {
                lemma_read_parts_stops(Map::empty(), shipped_records(), k + 1);
            }
            return false;
        }
        k = k + 1;
    }
    assert(shipped_records().take(k as int) == shipped_records());
    true
}

/// Whether the shipped records are well formed, so that the default table is
/// built from them.
pub fn shipped_records_are_well_formed() -> (r: bool)
    ensures
        r == read_parts(Map::empty(), shipped_records()) is Some,
{
    let mut m: BTreeMap<u16, u16> = BTreeMap::new();
    read_shipped(&mut m)
}

/// Builds the default fold table.
pub fn gen_mappings() -> (r: BTreeMap<u16, u16>)
    ensures
        r@ == default_map(),
{
    let mut m: BTreeMap<u16, u16> = BTreeMap::new();
    if !read_shipped(&mut m) {
        m = BTreeMap::new();
    }
    let adj = adjustments();
    apply_corrections(&mut m, adj.as_slice());
    m
}

/// Building the default table twice gives the same mapping.
pub proof fn lemma_default_table_deterministic(a: Map<u16, u16>, b: Map<u16, u16>)
    requires
        a == default_map(),
        b == default_map(),
    ensures
        a == b,
{
}

} // verus!
