//! Transliteration of non-ASCII characters into LaTeX commands.

use vstd::prelude::*;

use crate::text::{push_char, to_chars};

verus! {

/// Part 0 of the transliteration table.
pub open spec fn latex_part_0(c: char) -> Option<Seq<char>> {
    match c {
        '\u{A0}' => Some("~"@),
        '\u{A1}' => Some("\\textexclamdown"@),
        '\u{A2}' => Some("\\textcent"@),
        '\u{A3}' => Some("\\textsterling"@),
        '\u{A4}' => Some("\\textcurrency"@),
        '\u{A5}' => Some("\\textyen"@),
        '\u{A6}' => Some("\\textbrokenbar"@),
        '\u{A7}' => Some("\\textsection"@),
        '\u{A8}' => Some("\\textasciidieresis"@),
        '\u{A9}' => Some("\\textcopyright"@),
        '\u{AA}' => Some("\\textordfeminine"@),
        '\u{AB}' => Some("\\guillemotleft"@),
        '\u{AC}' => Some("\\textlnot"@),
        '\u{AD}' => Some("\\-"@),
        '\u{AE}' => Some("\\textregistered"@),
        '\u{AF}' => Some("\\textasciimacron"@),
        '\u{B0}' => Some("\\textdegree"@),
        '\u{B1}' => Some("\\ensuremath{\\pm}"@),
        '\u{B2}' => Some("\\texttwosuperior"@),
        '\u{B3}' => Some("\\textthreesuperior"@),
        '\u{B4}' => Some("\\textasciiacute"@),
        '\u{B5}' => Some("\\textmu"@),
        '\u{B6}' => Some("\\textparagraph"@),
        '\u{B7}' => Some("\\textperiodcentered"@),
        '\u{B9}' => Some("\\textonesuperior"@),
        '\u{BA}' => Some("\\textordmasculine"@),
        '\u{BB}' => Some("\\guillemotright"@),
        '\u{BC}' => Some("\\textonequarter"@),
        '\u{BD}' => Some("\\textonehalf"@),
        '\u{BE}' => Some("\\textthreequarters"@),
        '\u{BF}' => Some("\\textquestiondown"@),
        '\u{C0}' => Some("\\`A"@),
        '\u{C1}' => Some("\\'A"@),
        '\u{C2}' => Some("\\^A"@),
        '\u{C3}' => Some("\\~A"@),
        '\u{C4}' => Some("\\\"A"@),
        '\u{C5}' => Some("\\r{A}"@),
        '\u{C6}' => Some("\\AE"@),
        '\u{C7}' => Some("\\c{C}"@),
        '\u{C8}' => Some("\\`E"@),
        '\u{C9}' => Some("\\'E"@),
        '\u{CA}' => Some("\\^E"@),
        '\u{CB}' => Some("\\\"E"@),
        '\u{CC}' => Some("\\`I"@),
        '\u{CD}' => Some("\\'I"@),
        '\u{CE}' => Some("\\^I"@),
        '\u{CF}' => Some("\\\"I"@),
        '\u{D0}' => Some("\\DH"@),
        '\u{D1}' => Some("\\~N"@),
        '\u{D2}' => Some("\\`O"@),
        '\u{D3}' => Some("\\'O"@),
        '\u{D4}' => Some("\\^O"@),
        '\u{D5}' => Some("\\~O"@),
        '\u{D6}' => Some("\\\"O"@),
        '\u{D7}' => Some("\\texttimes"@),
        '\u{D8}' => Some("\\O"@),
        '\u{D9}' => Some("\\`U"@),
        '\u{DA}' => Some("\\'U"@),
        '\u{DB}' => Some("\\^U"@),
        '\u{DC}' => Some("\\\"U"@),
        _ => None,
    }
}

fn lookup_part_0(c: char) -> (r: Option<&'static str>)
    ensures
        r matches Some(t) ==> latex_part_0(c) == Some(t@),
        r is None ==> latex_part_0(c) is None,
{
    match c {
        '\u{A0}' => Some("~"),
        '\u{A1}' => Some("\\textexclamdown"),
        '\u{A2}' => Some("\\textcent"),
        '\u{A3}' => Some("\\textsterling"),
        '\u{A4}' => Some("\\textcurrency"),
        '\u{A5}' => Some("\\textyen"),
        '\u{A6}' => Some("\\textbrokenbar"),
        '\u{A7}' => Some("\\textsection"),
        '\u{A8}' => Some("\\textasciidieresis"),
        '\u{A9}' => Some("\\textcopyright"),
        '\u{AA}' => Some("\\textordfeminine"),
        '\u{AB}' => Some("\\guillemotleft"),
        '\u{AC}' => Some("\\textlnot"),
        '\u{AD}' => Some("\\-"),
        '\u{AE}' => Some("\\textregistered"),
        '\u{AF}' => Some("\\textasciimacron"),
        '\u{B0}' => Some("\\textdegree"),
        '\u{B1}' => Some("\\ensuremath{\\pm}"),
        '\u{B2}' => Some("\\texttwosuperior"),
        '\u{B3}' => Some("\\textthreesuperior"),
        '\u{B4}' => Some("\\textasciiacute"),
        '\u{B5}' => Some("\\textmu"),
        '\u{B6}' => Some("\\textparagraph"),
        '\u{B7}' => Some("\\textperiodcentered"),
        '\u{B9}' => Some("\\textonesuperior"),
        '\u{BA}' => Some("\\textordmasculine"),
        '\u{BB}' => Some("\\guillemotright"),
        '\u{BC}' => Some("\\textonequarter"),
        '\u{BD}' => Some("\\textonehalf"),
        '\u{BE}' => Some("\\textthreequarters"),
        '\u{BF}' => Some("\\textquestiondown"),
        '\u{C0}' => Some("\\`A"),
        '\u{C1}' => Some("\\'A"),
        '\u{C2}' => Some("\\^A"),
        '\u{C3}' => Some("\\~A"),
        '\u{C4}' => Some("\\\"A"),
        '\u{C5}' => Some("\\r{A}"),
        '\u{C6}' => Some("\\AE"),
        '\u{C7}' => Some("\\c{C}"),
        '\u{C8}' => Some("\\`E"),
        '\u{C9}' => Some("\\'E"),
        '\u{CA}' => Some("\\^E"),
        '\u{CB}' => Some("\\\"E"),
        '\u{CC}' => Some("\\`I"),
        '\u{CD}' => Some("\\'I"),
        '\u{CE}' => Some("\\^I"),
        '\u{CF}' => Some("\\\"I"),
        '\u{D0}' => Some("\\DH"),
        '\u{D1}' => Some("\\~N"),
        '\u{D2}' => Some("\\`O"),
        '\u{D3}' => Some("\\'O"),
        '\u{D4}' => Some("\\^O"),
        '\u{D5}' => Some("\\~O"),
        '\u{D6}' => Some("\\\"O"),
        '\u{D7}' => Some("\\texttimes"),
        '\u{D8}' => Some("\\O"),
        '\u{D9}' => Some("\\`U"),
        '\u{DA}' => Some("\\'U"),
        '\u{DB}' => Some("\\^U"),
        '\u{DC}' => Some("\\\"U"),
        _ => None,
    }
}

/// Part 1 of the transliteration table.
pub open spec fn latex_part_1(c: char) -> Option<Seq<char>> {
    match c {
        '\u{DD}' => Some("\\'Y"@),
        '\u{DE}' => Some("\\TH"@),
        '\u{DF}' => Some("\\ss"@),
        '\u{E0}' => Some("\\`a"@),
        '\u{E1}' => Some("\\'a"@),
        '\u{E2}' => Some("\\^a"@),
        '\u{E3}' => Some("\\~a"@),
        '\u{E4}' => Some("\\\"a"@),
        '\u{E5}' => Some("\\r{a}"@),
        '\u{E6}' => Some("\\ae"@),
        '\u{E7}' => Some("\\c{c}"@),
        '\u{E8}' => Some("\\`e"@),
        '\u{E9}' => Some("\\'e"@),
        '\u{EA}' => Some("\\^e"@),
        '\u{EB}' => Some("\\\"e"@),
        '\u{EC}' => Some("\\`i"@),
        '\u{ED}' => Some("\\'i"@),
        '\u{EE}' => Some("\\^i"@),
        '\u{EF}' => Some("\\\"i"@),
        '\u{F0}' => Some("\\dh"@),
        '\u{F1}' => Some("\\~n"@),
        '\u{F2}' => Some("\\`o"@),
        '\u{F3}' => Some("\\'o"@),
        '\u{F4}' => Some("\\^o"@),
        '\u{F5}' => Some("\\~o"@),
        '\u{F6}' => Some("\\\"o"@),
        '\u{F7}' => Some("\\textdiv"@),
        '\u{F8}' => Some("\\o"@),
        '\u{F9}' => Some("\\`u"@),
        '\u{FA}' => Some("\\'u"@),
        '\u{FB}' => Some("\\^u"@),
        '\u{FC}' => Some("\\\"u"@),
        '\u{FD}' => Some("\\'y"@),
        '\u{FE}' => Some("\\th"@),
        '\u{FF}' => Some("\\\"y"@),
        '\u{100}' => Some("\\={A}"@),
        '\u{101}' => Some("\\={a}"@),
        '\u{102}' => Some("\\u{A}"@),
        '\u{103}' => Some("\\u{a}"@),
        '\u{104}' => Some("\\k{A}"@),
        '\u{105}' => Some("\\k{a}"@),
        '\u{106}' => Some("\\'C"@),
        '\u{107}' => Some("\\'c"@),
        '\u{108}' => Some("\\^{C}"@),
        '\u{109}' => Some("\\^{c}"@),
        '\u{10A}' => Some("\\.{C}"@),
        '\u{10B}' => Some("\\.{c}"@),
        '\u{10C}' => Some("\\v{C}"@),
        '\u{10D}' => Some("\\v{c}"@),
        '\u{10E}' => Some("\\v{D}"@),
        '\u{10F}' => Some("\\v{d}"@),
        '\u{110}' => Some("\\DJ"@),
        '\u{111}' => Some("\\dj"@),
        '\u{112}' => Some("\\={E}"@),
        '\u{113}' => Some("\\={e}"@),
        '\u{114}' => Some("\\u{E}"@),
        '\u{115}' => Some("\\u{e}"@),
        '\u{116}' => Some("\\.{E}"@),
        '\u{117}' => Some("\\.{e}"@),
        '\u{118}' => Some("\\k{E}"@),
        _ => None,
    }
}

fn lookup_part_1(c: char) -> (r: Option<&'static str>)
    ensures
        r matches Some(t) ==> latex_part_1(c) == Some(t@),
        r is None ==> latex_part_1(c) is None,
{
    match c {
        '\u{DD}' => Some("\\'Y"),
        '\u{DE}' => Some("\\TH"),
        '\u{DF}' => Some("\\ss"),
        '\u{E0}' => Some("\\`a"),
        '\u{E1}' => Some("\\'a"),
        '\u{E2}' => Some("\\^a"),
        '\u{E3}' => Some("\\~a"),
        '\u{E4}' => Some("\\\"a"),
        '\u{E5}' => Some("\\r{a}"),
        '\u{E6}' => Some("\\ae"),
        '\u{E7}' => Some("\\c{c}"),
        '\u{E8}' => Some("\\`e"),
        '\u{E9}' => Some("\\'e"),
        '\u{EA}' => Some("\\^e"),
        '\u{EB}' => Some("\\\"e"),
        '\u{EC}' => Some("\\`i"),
        '\u{ED}' => Some("\\'i"),
        '\u{EE}' => Some("\\^i"),
        '\u{EF}' => Some("\\\"i"),
        '\u{F0}' => Some("\\dh"),
        '\u{F1}' => Some("\\~n"),
        '\u{F2}' => Some("\\`o"),
        '\u{F3}' => Some("\\'o"),
        '\u{F4}' => Some("\\^o"),
        '\u{F5}' => Some("\\~o"),
        '\u{F6}' => Some("\\\"o"),
        '\u{F7}' => Some("\\textdiv"),
        '\u{F8}' => Some("\\o"),
        '\u{F9}' => Some("\\`u"),
        '\u{FA}' => Some("\\'u"),
        '\u{FB}' => Some("\\^u"),
        '\u{FC}' => Some("\\\"u"),
        '\u{FD}' => Some("\\'y"),
        '\u{FE}' => Some("\\th"),
        '\u{FF}' => Some("\\\"y"),
        '\u{100}' => Some("\\={A}"),
        '\u{101}' => Some("\\={a}"),
        '\u{102}' => Some("\\u{A}"),
        '\u{103}' => Some("\\u{a}"),
        '\u{104}' => Some("\\k{A}"),
        '\u{105}' => Some("\\k{a}"),
        '\u{106}' => Some("\\'C"),
        '\u{107}' => Some("\\'c"),
        '\u{108}' => Some("\\^{C}"),
        '\u{109}' => Some("\\^{c}"),
        '\u{10A}' => Some("\\.{C}"),
        '\u{10B}' => Some("\\.{c}"),
        '\u{10C}' => Some("\\v{C}"),
        '\u{10D}' => Some("\\v{c}"),
        '\u{10E}' => Some("\\v{D}"),
        '\u{10F}' => Some("\\v{d}"),
        '\u{110}' => Some("\\DJ"),
        '\u{111}' => Some("\\dj"),
        '\u{112}' => Some("\\={E}"),
        '\u{113}' => Some("\\={e}"),
        '\u{114}' => Some("\\u{E}"),
        '\u{115}' => Some("\\u{e}"),
        '\u{116}' => Some("\\.{E}"),
        '\u{117}' => Some("\\.{e}"),
        '\u{118}' => Some("\\k{E}"),
        _ => None,
    }
}

/// Part 2 of the transliteration table.
pub open spec fn latex_part_2(c: char) -> Option<Seq<char>> {
    match c {
        '\u{119}' => Some("\\k{e}"@),
        '\u{11A}' => Some("\\v{E}"@),
        '\u{11B}' => Some("\\v{e}"@),
        '\u{11C}' => Some("\\^{G}"@),
        '\u{11D}' => Some("\\^{g}"@),
        '\u{11E}' => Some("\\u{G}"@),
        '\u{11F}' => Some("\\u{g}"@),
        '\u{120}' => Some("\\.{G}"@),
        '\u{121}' => Some("\\.{g}"@),
        '\u{122}' => Some("\\c{G}"@),
        '\u{123}' => Some("\\c{g}"@),
        '\u{124}' => Some("\\^{H}"@),
        '\u{125}' => Some("\\^{h}"@),
        '\u{126}' => Some("\\={H}"@),
        '\u{127}' => Some("\\={h}"@),
        '\u{128}' => Some("\\~{I}"@),
        '\u{129}' => Some("\\~{i}"@),
        '\u{12A}' => Some("\\={I}"@),
        '\u{12B}' => Some("\\={i}"@),
        '\u{12C}' => Some("\\u{I}"@),
        '\u{12D}' => Some("\\u{i}"@),
        '\u{12E}' => Some("\\k{I}"@),
        '\u{12F}' => Some("\\k{i}"@),
        '\u{130}' => Some("\\.I"@),
        '\u{131}' => Some("\\i"@),
        '\u{132}' => Some("\\IJ"@),
        '\u{133}' => Some("\\ij"@),
        '\u{134}' => Some("\\^{J}"@),
        '\u{135}' => Some("\\^{j}"@),
        '\u{136}' => Some("\\c{K}"@),
        '\u{137}' => Some("\\c{k}"@),
        '\u{138}' => Some("\\textsc{k}"@),
        '\u{139}' => Some("\\'L"@),
        '\u{13A}' => Some("\\'l"@),
        '\u{13B}' => Some("\\c{L}"@),
        '\u{13C}' => Some("\\c{l}"@),
        '\u{13D}' => Some("\\v{L}"@),
        '\u{13E}' => Some("\\v{l}"@),
        '\u{13F}' => Some("\\.{L}"@),
        '\u{140}' => Some("\\.{l}"@),
        '\u{141}' => Some("\\L"@),
        '\u{142}' => Some("\\l"@),
        '\u{143}' => Some("\\'N"@),
        '\u{144}' => Some("\\'n"@),
        '\u{145}' => Some("\\c{N}"@),
        '\u{146}' => Some("\\c{n}"@),
        '\u{147}' => Some("\\v{N}"@),
        '\u{148}' => Some("\\v{n}"@),
        '\u{149}' => Some("\\nument{149}"@),
        '\u{14A}' => Some("\\NG"@),
        '\u{14B}' => Some("\\ng"@),
        '\u{14C}' => Some("\\={O}"@),
        '\u{14D}' => Some("\\={o}"@),
        '\u{14E}' => Some("\\u{O}"@),
        '\u{14F}' => Some("\\u{o}"@),
        '\u{150}' => Some("\\H{O}"@),
        '\u{151}' => Some("\\H{o}"@),
        '\u{152}' => Some("\\OE"@),
        '\u{153}' => Some("\\oe"@),
        '\u{154}' => Some("\\'R"@),
        _ => None,
    }
}

fn lookup_part_2(c: char) -> (r: Option<&'static str>)
    ensures
        r matches Some(t) ==> latex_part_2(c) == Some(t@),
        r is None ==> latex_part_2(c) is None,
{
    match c {
        '\u{119}' => Some("\\k{e}"),
        '\u{11A}' => Some("\\v{E}"),
        '\u{11B}' => Some("\\v{e}"),
        '\u{11C}' => Some("\\^{G}"),
        '\u{11D}' => Some("\\^{g}"),
        '\u{11E}' => Some("\\u{G}"),
        '\u{11F}' => Some("\\u{g}"),
        '\u{120}' => Some("\\.{G}"),
        '\u{121}' => Some("\\.{g}"),
        '\u{122}' => Some("\\c{G}"),
        '\u{123}' => Some("\\c{g}"),
        '\u{124}' => Some("\\^{H}"),
        '\u{125}' => Some("\\^{h}"),
        '\u{126}' => Some("\\={H}"),
        '\u{127}' => Some("\\={h}"),
        '\u{128}' => Some("\\~{I}"),
        '\u{129}' => Some("\\~{i}"),
        '\u{12A}' => Some("\\={I}"),
        '\u{12B}' => Some("\\={i}"),
        '\u{12C}' => Some("\\u{I}"),
        '\u{12D}' => Some("\\u{i}"),
        '\u{12E}' => Some("\\k{I}"),
        '\u{12F}' => Some("\\k{i}"),
        '\u{130}' => Some("\\.I"),
        '\u{131}' => Some("\\i"),
        '\u{132}' => Some("\\IJ"),
        '\u{133}' => Some("\\ij"),
        '\u{134}' => Some("\\^{J}"),
        '\u{135}' => Some("\\^{j}"),
        '\u{136}' => Some("\\c{K}"),
        '\u{137}' => Some("\\c{k}"),
        '\u{138}' => Some("\\textsc{k}"),
        '\u{139}' => Some("\\'L"),
        '\u{13A}' => Some("\\'l"),
        '\u{13B}' => Some("\\c{L}"),
        '\u{13C}' => Some("\\c{l}"),
        '\u{13D}' => Some("\\v{L}"),
        '\u{13E}' => Some("\\v{l}"),
        '\u{13F}' => Some("\\.{L}"),
        '\u{140}' => Some("\\.{l}"),
        '\u{141}' => Some("\\L"),
        '\u{142}' => Some("\\l"),
        '\u{143}' => Some("\\'N"),
        '\u{144}' => Some("\\'n"),
        '\u{145}' => Some("\\c{N}"),
        '\u{146}' => Some("\\c{n}"),
        '\u{147}' => Some("\\v{N}"),
        '\u{148}' => Some("\\v{n}"),
        '\u{149}' => Some("\\nument{149}"),
        '\u{14A}' => Some("\\NG"),
        '\u{14B}' => Some("\\ng"),
        '\u{14C}' => Some("\\={O}"),
        '\u{14D}' => Some("\\={o}"),
        '\u{14E}' => Some("\\u{O}"),
        '\u{14F}' => Some("\\u{o}"),
        '\u{150}' => Some("\\H{O}"),
        '\u{151}' => Some("\\H{o}"),
        '\u{152}' => Some("\\OE"),
        '\u{153}' => Some("\\oe"),
        '\u{154}' => Some("\\'R"),
        _ => None,
    }
}

/// Part 3 of the transliteration table.
pub open spec fn latex_part_3(c: char) -> Option<Seq<char>> {
    match c {
        '\u{155}' => Some("\\'r"@),
        '\u{156}' => Some("\\c{R}"@),
        '\u{157}' => Some("\\c{r}"@),
        '\u{158}' => Some("\\v{R}"@),
        '\u{159}' => Some("\\v{r}"@),
        '\u{15A}' => Some("\\'S"@),
        '\u{15B}' => Some("\\'s"@),
        '\u{15C}' => Some("\\^{S}"@),
        '\u{15D}' => Some("\\^{s}"@),
        '\u{15E}' => Some("\\c{S}"@),
        '\u{15F}' => Some("\\c{s}"@),
        '\u{160}' => Some("\\v{S}"@),
        '\u{161}' => Some("\\v{s}"@),
        '\u{162}' => Some("\\c{T}"@),
        '\u{163}' => Some("\\c{t}"@),
        '\u{164}' => Some("\\v{T}"@),
        '\u{165}' => Some("\\v{t}"@),
        '\u{166}' => Some("\\={T}"@),
        '\u{167}' => Some("\\={t}"@),
        '\u{168}' => Some("\\~{U}"@),
        '\u{169}' => Some("\\~{u}"@),
        '\u{16A}' => Some("\\={U}"@),
        '\u{16B}' => Some("\\={u}"@),
        '\u{16C}' => Some("\\u{U}"@),
        '\u{16D}' => Some("\\u{u}"@),
        '\u{16E}' => Some("\\r{U}"@),
        '\u{16F}' => Some("\\r{u}"@),
        '\u{170}' => Some("\\'{U}"@),
        '\u{171}' => Some("\\'{u}"@),
        '\u{172}' => Some("\\k{U}"@),
        '\u{173}' => Some("\\k{u}"@),
        '\u{174}' => Some("\\^{W}"@),
        '\u{175}' => Some("\\^{w}"@),
        '\u{176}' => Some("\\^{Y}"@),
        '\u{177}' => Some("\\^{y}"@),
        '\u{178}' => Some("\\\"Y"@),
        '\u{179}' => Some("\\'Z"@),
        '\u{17A}' => Some("\\'z"@),
        '\u{17B}' => Some("\\.Z"@),
        '\u{17C}' => Some("\\.z"@),
        '\u{17D}' => Some("\\v{Z}"@),
        '\u{17E}' => Some("\\v{z}"@),
        '\u{192}' => Some("\\textflorin"@),
        '\u{195}' => Some("\\texthvlig"@),
        '\u{19E}' => Some("\\textnrleg"@),
        '\u{1E7}' => Some("\\v{g}"@),
        '\u{1F5}' => Some("\\'{g}"@),
        '\u{228}' => Some("\\c{E}"@),
        '\u{229}' => Some("\\c{e}"@),
        '\u{259}' => Some("\\textschwa"@),
        '\u{25B}' => Some("\\varepsilon"@),
        '\u{278}' => Some("\\textphi"@),
        '\u{294}' => Some("\\textglotstop"@),
        '\u{29E}' => Some("\\textturnk"@),
        '\u{2B7}' => Some("\\textsuperscript{w}"@),
        '\u{2BC}' => Some("'"@),
        '\u{2C6}' => Some("\\textasciicircum"@),
        '\u{2C7}' => Some("\\textasciicaron"@),
        '\u{2D8}' => Some("\\textasciibreve"@),
        '\u{2D9}' => Some("\\textperiodcentered"@),
        _ => None,
    }
}

fn lookup_part_3(c: char) -> (r: Option<&'static str>)
    ensures
        r matches Some(t) ==> latex_part_3(c) == Some(t@),
        r is None ==> latex_part_3(c) is None,
{
    match c {
        '\u{155}' => Some("\\'r"),
        '\u{156}' => Some("\\c{R}"),
        '\u{157}' => Some("\\c{r}"),
        '\u{158}' => Some("\\v{R}"),
        '\u{159}' => Some("\\v{r}"),
        '\u{15A}' => Some("\\'S"),
        '\u{15B}' => Some("\\'s"),
        '\u{15C}' => Some("\\^{S}"),
        '\u{15D}' => Some("\\^{s}"),
        '\u{15E}' => Some("\\c{S}"),
        '\u{15F}' => Some("\\c{s}"),
        '\u{160}' => Some("\\v{S}"),
        '\u{161}' => Some("\\v{s}"),
        '\u{162}' => Some("\\c{T}"),
        '\u{163}' => Some("\\c{t}"),
        '\u{164}' => Some("\\v{T}"),
        '\u{165}' => Some("\\v{t}"),
        '\u{166}' => Some("\\={T}"),
        '\u{167}' => Some("\\={t}"),
        '\u{168}' => Some("\\~{U}"),
        '\u{169}' => Some("\\~{u}"),
        '\u{16A}' => Some("\\={U}"),
        '\u{16B}' => Some("\\={u}"),
        '\u{16C}' => Some("\\u{U}"),
        '\u{16D}' => Some("\\u{u}"),
        '\u{16E}' => Some("\\r{U}"),
        '\u{16F}' => Some("\\r{u}"),
        '\u{170}' => Some("\\'{U}"),
        '\u{171}' => Some("\\'{u}"),
        '\u{172}' => Some("\\k{U}"),
        '\u{173}' => Some("\\k{u}"),
        '\u{174}' => Some("\\^{W}"),
        '\u{175}' => Some("\\^{w}"),
        '\u{176}' => Some("\\^{Y}"),
        '\u{177}' => Some("\\^{y}"),
        '\u{178}' => Some("\\\"Y"),
        '\u{179}' => Some("\\'Z"),
        '\u{17A}' => Some("\\'z"),
        '\u{17B}' => Some("\\.Z"),
        '\u{17C}' => Some("\\.z"),
        '\u{17D}' => Some("\\v{Z}"),
        '\u{17E}' => Some("\\v{z}"),
        '\u{192}' => Some("\\textflorin"),
        '\u{195}' => Some("\\texthvlig"),
        '\u{19E}' => Some("\\textnrleg"),
        '\u{1E7}' => Some("\\v{g}"),
        '\u{1F5}' => Some("\\'{g}"),
        '\u{228}' => Some("\\c{E}"),
        '\u{229}' => Some("\\c{e}"),
        '\u{259}' => Some("\\textschwa"),
        '\u{25B}' => Some("\\varepsilon"),
        '\u{278}' => Some("\\textphi"),
        '\u{294}' => Some("\\textglotstop"),
        '\u{29E}' => Some("\\textturnk"),
        '\u{2B7}' => Some("\\textsuperscript{w}"),
        '\u{2BC}' => Some("'"),
        '\u{2C6}' => Some("\\textasciicircum"),
        '\u{2C7}' => Some("\\textasciicaron"),
        '\u{2D8}' => Some("\\textasciibreve"),
        '\u{2D9}' => Some("\\textperiodcentered"),
        _ => None,
    }
}

/// Part 4 of the transliteration table.
pub open spec fn latex_part_4(c: char) -> Option<Seq<char>> {
    match c {
        '\u{2DA}' => Some("\\r{}"@),
        '\u{2DB}' => Some("\\k{}"@),
        '\u{2DC}' => Some("\\textasciitilde"@),
        '\u{2DD}' => Some("\\textacutedbl"@),
        '\u{307}' => Some("\\ensuremath{\\dot{}}"@),
        '\u{308}' => Some("\\ensuremath{\\ddot{}}"@),
        '\u{386}' => Some("\\'{}A"@),
        '\u{388}' => Some("\\'{}E"@),
        '\u{389}' => Some("\\'{}H"@),
        '\u{38A}' => Some("\\'{}I"@),
        '\u{38C}' => Some("\\'{}O"@),
        '\u{38E}' => Some("\\'{}Y"@),
        '\u{38F}' => Some("\\'{}\\ensuremath{\\Omega}"@),
        '\u{390}' => Some("\\acute{\\ddot{\\iota}}"@),
        '\u{391}' => Some("A"@),
        '\u{392}' => Some("B"@),
        '\u{393}' => Some("\\ensuremath{\\Gamma}"@),
        '\u{394}' => Some("\\ensuremath{\\Delta}"@),
        '\u{395}' => Some("E"@),
        '\u{396}' => Some("Z"@),
        '\u{397}' => Some("H"@),
        '\u{398}' => Some("\\ensuremath{\\Theta}"@),
        '\u{399}' => Some("I"@),
        '\u{39A}' => Some("K"@),
        '\u{39B}' => Some("\\ensuremath{\\Lambda}"@),
        '\u{39C}' => Some("M"@),
        '\u{39D}' => Some("N"@),
        '\u{39E}' => Some("\\ensuremath{\\Xi}"@),
        '\u{39F}' => Some("O"@),
        '\u{3A0}' => Some("\\ensuremath{\\Pi}"@),
        '\u{3A1}' => Some("P"@),
        '\u{3A3}' => Some("\\ensuremath{\\Sigma}"@),
        '\u{3A4}' => Some("T"@),
        '\u{3A5}' => Some("\\ensuremath{\\Upsilon}"@),
        '\u{3A6}' => Some("\\ensuremath{\\Phi}"@),
        '\u{3A7}' => Some("X"@),
        '\u{3A8}' => Some("\\ensuremath{\\Psi}"@),
        '\u{3A9}' => Some("\\ensuremath{\\Omega}"@),
        '\u{3AA}' => Some("\\ensuremath{\\ddot{I}}"@),
        '\u{3AB}' => Some("\\ensuremath{\\ddot{Y}}"@),
        '\u{3AC}' => Some("\\ensuremath{\\acute\\alpha}"@),
        '\u{3AD}' => Some("\\ensuremath{\\acute\\epsilon}"@),
        '\u{3AE}' => Some("\\ensuremath{\\acute\\eta}"@),
        '\u{3AF}' => Some("\\ensuremath{\\acute\\iota}"@),
        '\u{3B0}' => Some("\\ensuremath{\\acute{\\ddot{\\upsilon}}}"@),
        '\u{3B1}' => Some("\\ensuremath{\\alpha}"@),
        '\u{3B2}' => Some("\\ensuremath{\\beta}"@),
        '\u{3B3}' => Some("\\ensuremath{\\gamma}"@),
        '\u{3B4}' => Some("\\ensuremath{\\delta}"@),
        '\u{3B5}' => Some("\\ensuremath{\\varepsilon}"@),
        '\u{3B6}' => Some("\\ensuremath{\\zeta}"@),
        '\u{3B7}' => Some("\\ensuremath{\\eta}"@),
        '\u{3B8}' => Some("\\ensuremath{\\theta}"@),
        '\u{3B9}' => Some("\\ensuremath{\\iota}"@),
        '\u{3BA}' => Some("\\ensuremath{\\kappa}"@),
        '\u{3BB}' => Some("\\ensuremath{\\lambda}"@),
        '\u{3BC}' => Some("\\ensuremath{\\mu}"@),
        '\u{3BD}' => Some("\\ensuremath{\\nu}"@),
        '\u{3BE}' => Some("\\ensuremath{\\xi}"@),
        '\u{3BF}' => Some("o"@),
        _ => None,
    }
}

fn lookup_part_4(c: char) -> (r: Option<&'static str>)
    ensures
        r matches Some(t) ==> latex_part_4(c) == Some(t@),
        r is None ==> latex_part_4(c) is None,
{
    match c {
        '\u{2DA}' => Some("\\r{}"),
        '\u{2DB}' => Some("\\k{}"),
        '\u{2DC}' => Some("\\textasciitilde"),
        '\u{2DD}' => Some("\\textacutedbl"),
        '\u{307}' => Some("\\ensuremath{\\dot{}}"),
        '\u{308}' => Some("\\ensuremath{\\ddot{}}"),
        '\u{386}' => Some("\\'{}A"),
        '\u{388}' => Some("\\'{}E"),
        '\u{389}' => Some("\\'{}H"),
        '\u{38A}' => Some("\\'{}I"),
        '\u{38C}' => Some("\\'{}O"),
        '\u{38E}' => Some("\\'{}Y"),
        '\u{38F}' => Some("\\'{}\\ensuremath{\\Omega}"),
        '\u{390}' => Some("\\acute{\\ddot{\\iota}}"),
        '\u{391}' => Some("A"),
        '\u{392}' => Some("B"),
        '\u{393}' => Some("\\ensuremath{\\Gamma}"),
        '\u{394}' => Some("\\ensuremath{\\Delta}"),
        '\u{395}' => Some("E"),
        '\u{396}' => Some("Z"),
        '\u{397}' => Some("H"),
        '\u{398}' => Some("\\ensuremath{\\Theta}"),
        '\u{399}' => Some("I"),
        '\u{39A}' => Some("K"),
        '\u{39B}' => Some("\\ensuremath{\\Lambda}"),
        '\u{39C}' => Some("M"),
        '\u{39D}' => Some("N"),
        '\u{39E}' => Some("\\ensuremath{\\Xi}"),
        '\u{39F}' => Some("O"),
        '\u{3A0}' => Some("\\ensuremath{\\Pi}"),
        '\u{3A1}' => Some("P"),
        '\u{3A3}' => Some("\\ensuremath{\\Sigma}"),
        '\u{3A4}' => Some("T"),
        '\u{3A5}' => Some("\\ensuremath{\\Upsilon}"),
        '\u{3A6}' => Some("\\ensuremath{\\Phi}"),
        '\u{3A7}' => Some("X"),
        '\u{3A8}' => Some("\\ensuremath{\\Psi}"),
        '\u{3A9}' => Some("\\ensuremath{\\Omega}"),
        '\u{3AA}' => Some("\\ensuremath{\\ddot{I}}"),
        '\u{3AB}' => Some("\\ensuremath{\\ddot{Y}}"),
        '\u{3AC}' => Some("\\ensuremath{\\acute\\alpha}"),
        '\u{3AD}' => Some("\\ensuremath{\\acute\\epsilon}"),
        '\u{3AE}' => Some("\\ensuremath{\\acute\\eta}"),
        '\u{3AF}' => Some("\\ensuremath{\\acute\\iota}"),
        '\u{3B0}' => Some("\\ensuremath{\\acute{\\ddot{\\upsilon}}}"),
        '\u{3B1}' => Some("\\ensuremath{\\alpha}"),
        '\u{3B2}' => Some("\\ensuremath{\\beta}"),
        '\u{3B3}' => Some("\\ensuremath{\\gamma}"),
        '\u{3B4}' => Some("\\ensuremath{\\delta}"),
        '\u{3B5}' => Some("\\ensuremath{\\varepsilon}"),
        '\u{3B6}' => Some("\\ensuremath{\\zeta}"),
        '\u{3B7}' => Some("\\ensuremath{\\eta}"),
        '\u{3B8}' => Some("\\ensuremath{\\theta}"),
        '\u{3B9}' => Some("\\ensuremath{\\iota}"),
        '\u{3BA}' => Some("\\ensuremath{\\kappa}"),
        '\u{3BB}' => Some("\\ensuremath{\\lambda}"),
        '\u{3BC}' => Some("\\ensuremath{\\mu}"),
        '\u{3BD}' => Some("\\ensuremath{\\nu}"),
        '\u{3BE}' => Some("\\ensuremath{\\xi}"),
        '\u{3BF}' => Some("o"),
        _ => None,
    }
}

/// Part 5 of the transliteration table.
pub open spec fn latex_part_5(c: char) -> Option<Seq<char>> {
    match c {
        '\u{3C0}' => Some("\\ensuremath{\\pi}"@),
        '\u{3C1}' => Some("\\ensuremath{\\rho}"@),
        '\u{3C2}' => Some("\\ensuremath{\\varsigma}"@),
        '\u{3C3}' => Some("\\ensuremath{\\sigma}"@),
        '\u{3C4}' => Some("\\ensuremath{\\tau}"@),
        '\u{3C5}' => Some("\\ensuremath{\\upsilon}"@),
        '\u{3C6}' => Some("\\ensuremath{\\varphi}"@),
        '\u{3C7}' => Some("\\ensuremath{\\chi}"@),
        '\u{3C8}' => Some("\\ensuremath{\\psi}"@),
        '\u{3C9}' => Some("\\ensuremath{\\omega}"@),
        '\u{3CA}' => Some("\\ensuremath{\\ddot\\iota}"@),
        '\u{3CB}' => Some("\\ensuremath{\\ddot{\\upsilon}}"@),
        '\u{3CC}' => Some("\\'{o}"@),
        '\u{3CD}' => Some("\\ensuremath{\\acute\\upsilon}"@),
        '\u{3CE}' => Some("\\ensuremath{\\acute\\omega}"@),
        '\u{3D1}' => Some("\\ensuremath{\\vartheta}"@),
        '\u{3D2}' => Some("\\Upsilon"@),
        '\u{3D5}' => Some("\\ensuremath{\\phi}"@),
        '\u{3D6}' => Some("\\ensuremath{\\varpi}"@),
        '\u{3F0}' => Some("\\ensuremath{\\varkappa}"@),
        '\u{3F1}' => Some("\\ensuremath{\\varrho}"@),
        '\u{3F5}' => Some("\\ensuremath{\\epsilon}"@),
        '\u{3F6}' => Some("\\ensuremath{\\backepsilon}"@),
        '\u{400}' => Some("\\`\\CYRE"@),
        '\u{401}' => Some("\\CYRYO"@),
        '\u{402}' => Some("\\CYRDJE"@),
        '\u{403}' => Some("\\`\\CYRG"@),
        '\u{404}' => Some("\\CYRIE"@),
        '\u{405}' => Some("\\CYRDZE"@),
        '\u{406}' => Some("\\CYRII"@),
        '\u{407}' => Some("\\CYRYI"@),
        '\u{408}' => Some("\\CYRJE"@),
        '\u{409}' => Some("\\CYRLJE"@),
        '\u{40A}' => Some("\\CYRNJE"@),
        '\u{40B}' => Some("\\CYRTSHE"@),
        '\u{40C}' => Some("\\`\\CYRK"@),
        '\u{40D}' => Some("\\`\\CYRI"@),
        '\u{40E}' => Some("\\CYRUSHRT"@),
        '\u{40F}' => Some("\\CYRDZHE"@),
        '\u{410}' => Some("\\CYRA"@),
        '\u{411}' => Some("\\CYRB"@),
        '\u{412}' => Some("\\CYRV"@),
        '\u{413}' => Some("\\CYRG"@),
        '\u{414}' => Some("\\CYRD"@),
        '\u{415}' => Some("\\CYRE"@),
        '\u{416}' => Some("\\CYRZH"@),
        '\u{417}' => Some("\\CYRZ"@),
        '\u{418}' => Some("\\CYRI"@),
        '\u{419}' => Some("\\CYRISHRT"@),
        '\u{41A}' => Some("\\CYRK"@),
        '\u{41B}' => Some("\\CYRL"@),
        '\u{41C}' => Some("\\CYRM"@),
        '\u{41D}' => Some("\\CYRN"@),
        '\u{41E}' => Some("\\CYRO"@),
        '\u{41F}' => Some("\\CYRP"@),
        '\u{420}' => Some("\\CYRR"@),
        '\u{421}' => Some("\\CYRS"@),
        '\u{422}' => Some("\\CYRT"@),
        '\u{423}' => Some("\\CYRU"@),
        '\u{424}' => Some("\\CYRF"@),
        _ => None,
    }
}

fn lookup_part_5(c: char) -> (r: Option<&'static str>)
    ensures
        r matches Some(t) ==> latex_part_5(c) == Some(t@),
        r is None ==> latex_part_5(c) is None,
{
    match c {
        '\u{3C0}' => Some("\\ensuremath{\\pi}"),
        '\u{3C1}' => Some("\\ensuremath{\\rho}"),
        '\u{3C2}' => Some("\\ensuremath{\\varsigma}"),
        '\u{3C3}' => Some("\\ensuremath{\\sigma}"),
        '\u{3C4}' => Some("\\ensuremath{\\tau}"),
        '\u{3C5}' => Some("\\ensuremath{\\upsilon}"),
        '\u{3C6}' => Some("\\ensuremath{\\varphi}"),
        '\u{3C7}' => Some("\\ensuremath{\\chi}"),
        '\u{3C8}' => Some("\\ensuremath{\\psi}"),
        '\u{3C9}' => Some("\\ensuremath{\\omega}"),
        '\u{3CA}' => Some("\\ensuremath{\\ddot\\iota}"),
        '\u{3CB}' => Some("\\ensuremath{\\ddot{\\upsilon}}"),
        '\u{3CC}' => Some("\\'{o}"),
        '\u{3CD}' => Some("\\ensuremath{\\acute\\upsilon}"),
        '\u{3CE}' => Some("\\ensuremath{\\acute\\omega}"),
        '\u{3D1}' => Some("\\ensuremath{\\vartheta}"),
        '\u{3D2}' => Some("\\Upsilon"),
        '\u{3D5}' => Some("\\ensuremath{\\phi}"),
        '\u{3D6}' => Some("\\ensuremath{\\varpi}"),
        '\u{3F0}' => Some("\\ensuremath{\\varkappa}"),
        '\u{3F1}' => Some("\\ensuremath{\\varrho}"),
        '\u{3F5}' => Some("\\ensuremath{\\epsilon}"),
        '\u{3F6}' => Some("\\ensuremath{\\backepsilon}"),
        '\u{400}' => Some("\\`\\CYRE"),
        '\u{401}' => Some("\\CYRYO"),
        '\u{402}' => Some("\\CYRDJE"),
        '\u{403}' => Some("\\`\\CYRG"),
        '\u{404}' => Some("\\CYRIE"),
        '\u{405}' => Some("\\CYRDZE"),
        '\u{406}' => Some("\\CYRII"),
        '\u{407}' => Some("\\CYRYI"),
        '\u{408}' => Some("\\CYRJE"),
        '\u{409}' => Some("\\CYRLJE"),
        '\u{40A}' => Some("\\CYRNJE"),
        '\u{40B}' => Some("\\CYRTSHE"),
        '\u{40C}' => Some("\\`\\CYRK"),
        '\u{40D}' => Some("\\`\\CYRI"),
        '\u{40E}' => Some("\\CYRUSHRT"),
        '\u{40F}' => Some("\\CYRDZHE"),
        '\u{410}' => Some("\\CYRA"),
        '\u{411}' => Some("\\CYRB"),
        '\u{412}' => Some("\\CYRV"),
        '\u{413}' => Some("\\CYRG"),
        '\u{414}' => Some("\\CYRD"),
        '\u{415}' => Some("\\CYRE"),
        '\u{416}' => Some("\\CYRZH"),
        '\u{417}' => Some("\\CYRZ"),
        '\u{418}' => Some("\\CYRI"),
        '\u{419}' => Some("\\CYRISHRT"),
        '\u{41A}' => Some("\\CYRK"),
        '\u{41B}' => Some("\\CYRL"),
        '\u{41C}' => Some("\\CYRM"),
        '\u{41D}' => Some("\\CYRN"),
        '\u{41E}' => Some("\\CYRO"),
        '\u{41F}' => Some("\\CYRP"),
        '\u{420}' => Some("\\CYRR"),
        '\u{421}' => Some("\\CYRS"),
        '\u{422}' => Some("\\CYRT"),
        '\u{423}' => Some("\\CYRU"),
        '\u{424}' => Some("\\CYRF"),
        _ => None,
    }
}

/// Part 6 of the transliteration table.
pub open spec fn latex_part_6(c: char) -> Option<Seq<char>> {
    match c {
        '\u{425}' => Some("\\CYRH"@),
        '\u{426}' => Some("\\CYRC"@),
        '\u{427}' => Some("\\CYRCH"@),
        '\u{428}' => Some("\\CYRSH"@),
        '\u{429}' => Some("\\CYRSHCH"@),
        '\u{42A}' => Some("\\CYRHRDSN"@),
        '\u{42B}' => Some("\\CYRERY"@),
        '\u{42C}' => Some("\\CYRSFTSN"@),
        '\u{42D}' => Some("\\CYREREV"@),
        '\u{42E}' => Some("\\CYRYU"@),
        '\u{42F}' => Some("\\CYRYA"@),
        '\u{430}' => Some("\\cyra"@),
        '\u{431}' => Some("\\cyrb"@),
        '\u{432}' => Some("\\cyrv"@),
        '\u{433}' => Some("\\cyrg"@),
        '\u{434}' => Some("\\cyrd"@),
        '\u{435}' => Some("\\cyre"@),
        '\u{436}' => Some("\\cyrzh"@),
        '\u{437}' => Some("\\cyrz"@),
        '\u{438}' => Some("\\cyri"@),
        '\u{439}' => Some("\\cyrishrt"@),
        '\u{43A}' => Some("\\cyrk"@),
        '\u{43B}' => Some("\\cyrl"@),
        '\u{43C}' => Some("\\cyrm"@),
        '\u{43D}' => Some("\\cyrn"@),
        '\u{43E}' => Some("\\cyro"@),
        '\u{43F}' => Some("\\cyrp"@),
        '\u{440}' => Some("\\cyrr"@),
        '\u{441}' => Some("\\cyrs"@),
        '\u{442}' => Some("\\cyrt"@),
        '\u{443}' => Some("\\cyru"@),
        '\u{444}' => Some("\\cyrf"@),
        '\u{445}' => Some("\\cyrh"@),
        '\u{446}' => Some("\\cyrc"@),
        '\u{447}' => Some("\\cyrch"@),
        '\u{448}' => Some("\\cyrsh"@),
        '\u{449}' => Some("\\cyrshch"@),
        '\u{44A}' => Some("\\cyrhrdsn"@),
        '\u{44B}' => Some("\\cyrery"@),
        '\u{44C}' => Some("\\cyrsftsn"@),
        '\u{44D}' => Some("\\cyrerev"@),
        '\u{44E}' => Some("\\cyryu"@),
        '\u{44F}' => Some("\\cyrya"@),
        '\u{450}' => Some("\\`\\cyre"@),
        '\u{451}' => Some("\\cyryo"@),
        '\u{452}' => Some("\\cyrdje"@),
        '\u{453}' => Some("\\`\\cyrg"@),
        '\u{454}' => Some("\\cyrie"@),
        '\u{455}' => Some("\\cyrdze"@),
        '\u{456}' => Some("\\cyrii"@),
        '\u{457}' => Some("\\cyryi"@),
        '\u{458}' => Some("\\cyrje"@),
        '\u{459}' => Some("\\cyrlje"@),
        '\u{45A}' => Some("\\cyrnje"@),
        '\u{45B}' => Some("\\cyrtshe"@),
        '\u{45C}' => Some("\\`\\cyrk"@),
        '\u{45D}' => Some("\\`\\cyri"@),
        '\u{45E}' => Some("\\cyrushrt"@),
        '\u{45F}' => Some("\\cyrdzhe"@),
        '\u{460}' => Some("\\cyrchar\\CYROMEGA"@),
        _ => None,
    }
}

fn lookup_part_6(c: char) -> (r: Option<&'static str>)
    ensures
        r matches Some(t) ==> latex_part_6(c) == Some(t@),
        r is None ==> latex_part_6(c) is None,
{
    match c {
        '\u{425}' => Some("\\CYRH"),
        '\u{426}' => Some("\\CYRC"),
        '\u{427}' => Some("\\CYRCH"),
        '\u{428}' => Some("\\CYRSH"),
        '\u{429}' => Some("\\CYRSHCH"),
        '\u{42A}' => Some("\\CYRHRDSN"),
        '\u{42B}' => Some("\\CYRERY"),
        '\u{42C}' => Some("\\CYRSFTSN"),
        '\u{42D}' => Some("\\CYREREV"),
        '\u{42E}' => Some("\\CYRYU"),
        '\u{42F}' => Some("\\CYRYA"),
        '\u{430}' => Some("\\cyra"),
        '\u{431}' => Some("\\cyrb"),
        '\u{432}' => Some("\\cyrv"),
        '\u{433}' => Some("\\cyrg"),
        '\u{434}' => Some("\\cyrd"),
        '\u{435}' => Some("\\cyre"),
        '\u{436}' => Some("\\cyrzh"),
        '\u{437}' => Some("\\cyrz"),
        '\u{438}' => Some("\\cyri"),
        '\u{439}' => Some("\\cyrishrt"),
        '\u{43A}' => Some("\\cyrk"),
        '\u{43B}' => Some("\\cyrl"),
        '\u{43C}' => Some("\\cyrm"),
        '\u{43D}' => Some("\\cyrn"),
        '\u{43E}' => Some("\\cyro"),
        '\u{43F}' => Some("\\cyrp"),
        '\u{440}' => Some("\\cyrr"),
        '\u{441}' => Some("\\cyrs"),
        '\u{442}' => Some("\\cyrt"),
        '\u{443}' => Some("\\cyru"),
        '\u{444}' => Some("\\cyrf"),
        '\u{445}' => Some("\\cyrh"),
        '\u{446}' => Some("\\cyrc"),
        '\u{447}' => Some("\\cyrch"),
        '\u{448}' => Some("\\cyrsh"),
        '\u{449}' => Some("\\cyrshch"),
        '\u{44A}' => Some("\\cyrhrdsn"),
        '\u{44B}' => Some("\\cyrery"),
        '\u{44C}' => Some("\\cyrsftsn"),
        '\u{44D}' => Some("\\cyrerev"),
        '\u{44E}' => Some("\\cyryu"),
        '\u{44F}' => Some("\\cyrya"),
        '\u{450}' => Some("\\`\\cyre"),
        '\u{451}' => Some("\\cyryo"),
        '\u{452}' => Some("\\cyrdje"),
        '\u{453}' => Some("\\`\\cyrg"),
        '\u{454}' => Some("\\cyrie"),
        '\u{455}' => Some("\\cyrdze"),
        '\u{456}' => Some("\\cyrii"),
        '\u{457}' => Some("\\cyryi"),
        '\u{458}' => Some("\\cyrje"),
        '\u{459}' => Some("\\cyrlje"),
        '\u{45A}' => Some("\\cyrnje"),
        '\u{45B}' => Some("\\cyrtshe"),
        '\u{45C}' => Some("\\`\\cyrk"),
        '\u{45D}' => Some("\\`\\cyri"),
        '\u{45E}' => Some("\\cyrushrt"),
        '\u{45F}' => Some("\\cyrdzhe"),
        '\u{460}' => Some("\\cyrchar\\CYROMEGA"),
        _ => None,
    }
}

/// Part 7 of the transliteration table.
pub open spec fn latex_part_7(c: char) -> Option<Seq<char>> {
    match c {
        '\u{461}' => Some("\\cyrchar\\cyromega"@),
        '\u{462}' => Some("\\CYRYAT"@),
        '\u{463}' => Some("\\cyryat"@),
        '\u{464}' => Some("\\cyrchar\\CYRIOTE"@),
        '\u{465}' => Some("\\cyrchar\\cyriote"@),
        '\u{466}' => Some("\\cyrchar\\CYRLYUS"@),
        '\u{467}' => Some("\\cyrchar\\cyrlyus"@),
        '\u{468}' => Some("\\cyrchar\\CYRIOTLYUS"@),
        '\u{469}' => Some("\\cyrchar\\cyriotlyus"@),
        '\u{46A}' => Some("\\CYRBYUS"@),
        '\u{46B}' => Some("\\cyrbyus"@),
        '\u{46C}' => Some("\\cyrchar\\CYRIOTBYUS"@),
        '\u{46D}' => Some("\\cyrchar\\cyriotbyus"@),
        '\u{46E}' => Some("\\cyrchar\\CYRKSI"@),
        '\u{46F}' => Some("\\cyrchar\\cyrksi"@),
        '\u{470}' => Some("\\cyrchar\\CYRPSI"@),
        '\u{471}' => Some("\\cyrchar\\cyrpsi"@),
        '\u{472}' => Some("\\CYRFITA"@),
        '\u{473}' => Some("\\cyrfita"@),
        '\u{474}' => Some("\\CYRIZH"@),
        '\u{475}' => Some("\\cyrizh"@),
        '\u{476}' => Some("\\C\\CYRIZH"@),
        '\u{477}' => Some("\\C\\cyrizh"@),
        '\u{478}' => Some("\\cyrchar\\CYRUK"@),
        '\u{479}' => Some("\\cyrchar\\cyruk"@),
        '\u{47A}' => Some("\\cyrchar\\CYROMEGARND"@),
        '\u{47B}' => Some("\\cyrchar\\cyromegarnd"@),
        '\u{47C}' => Some("\\cyrchar\\CYROMEGATITLO"@),
        '\u{47D}' => Some("\\cyrchar\\cyromegatitlo"@),
        '\u{47E}' => Some("\\cyrchar\\CYROT"@),
        '\u{47F}' => Some("\\cyrchar\\cyrot"@),
        '\u{480}' => Some("\\cyrchar\\CYRKOPPA"@),
        '\u{481}' => Some("\\cyrchar\\cyrkoppa"@),
        '\u{482}' => Some("\\cyrchar\\cyrthousands"@),
        '\u{488}' => Some("\\cyrchar\\cyrhundredthousands"@),
        '\u{489}' => Some("\\cyrchar\\cyrmillions"@),
        '\u{48C}' => Some("\\CYRSEMISFTSN"@),
        '\u{48D}' => Some("\\cyrsemisftsn"@),
        '\u{48E}' => Some("\\CYRRTICK"@),
        '\u{48F}' => Some("\\cyrrtick"@),
        '\u{490}' => Some("\\CYRGUP"@),
        '\u{491}' => Some("\\cyrgup"@),
        '\u{492}' => Some("\\CYRGHCRS"@),
        '\u{493}' => Some("\\cyrghcrs"@),
        '\u{494}' => Some("\\CYRGHK"@),
        '\u{495}' => Some("\\cyrghk"@),
        '\u{496}' => Some("\\CYRZHDSC"@),
        '\u{497}' => Some("\\cyrzhdsc"@),
        '\u{498}' => Some("\\CYRZDSC"@),
        '\u{499}' => Some("\\cyrzdsc"@),
        '\u{49A}' => Some("\\CYRKDSC"@),
        '\u{49B}' => Some("\\cyrkdsc"@),
        '\u{49C}' => Some("\\CYRKVCRS"@),
        '\u{49D}' => Some("\\cyrkvcrs"@),
        '\u{49E}' => Some("\\CYRKHCRS"@),
        '\u{49F}' => Some("\\cyrkhcrs"@),
        '\u{4A0}' => Some("\\CYRKBEAK"@),
        '\u{4A1}' => Some("\\cyrkbeak"@),
        '\u{4A2}' => Some("\\CYRNDSC"@),
        '\u{4A3}' => Some("\\cyrndsc"@),
        _ => None,
    }
}

fn lookup_part_7(c: char) -> (r: Option<&'static str>)
    ensures
        r matches Some(t) ==> latex_part_7(c) == Some(t@),
        r is None ==> latex_part_7(c) is None,
{
    match c {
        '\u{461}' => Some("\\cyrchar\\cyromega"),
        '\u{462}' => Some("\\CYRYAT"),
        '\u{463}' => Some("\\cyryat"),
        '\u{464}' => Some("\\cyrchar\\CYRIOTE"),
        '\u{465}' => Some("\\cyrchar\\cyriote"),
        '\u{466}' => Some("\\cyrchar\\CYRLYUS"),
        '\u{467}' => Some("\\cyrchar\\cyrlyus"),
        '\u{468}' => Some("\\cyrchar\\CYRIOTLYUS"),
        '\u{469}' => Some("\\cyrchar\\cyriotlyus"),
        '\u{46A}' => Some("\\CYRBYUS"),
        '\u{46B}' => Some("\\cyrbyus"),
        '\u{46C}' => Some("\\cyrchar\\CYRIOTBYUS"),
        '\u{46D}' => Some("\\cyrchar\\cyriotbyus"),
        '\u{46E}' => Some("\\cyrchar\\CYRKSI"),
        '\u{46F}' => Some("\\cyrchar\\cyrksi"),
        '\u{470}' => Some("\\cyrchar\\CYRPSI"),
        '\u{471}' => Some("\\cyrchar\\cyrpsi"),
        '\u{472}' => Some("\\CYRFITA"),
        '\u{473}' => Some("\\cyrfita"),
        '\u{474}' => Some("\\CYRIZH"),
        '\u{475}' => Some("\\cyrizh"),
        '\u{476}' => Some("\\C\\CYRIZH"),
        '\u{477}' => Some("\\C\\cyrizh"),
        '\u{478}' => Some("\\cyrchar\\CYRUK"),
        '\u{479}' => Some("\\cyrchar\\cyruk"),
        '\u{47A}' => Some("\\cyrchar\\CYROMEGARND"),
        '\u{47B}' => Some("\\cyrchar\\cyromegarnd"),
        '\u{47C}' => Some("\\cyrchar\\CYROMEGATITLO"),
        '\u{47D}' => Some("\\cyrchar\\cyromegatitlo"),
        '\u{47E}' => Some("\\cyrchar\\CYROT"),
        '\u{47F}' => Some("\\cyrchar\\cyrot"),
        '\u{480}' => Some("\\cyrchar\\CYRKOPPA"),
        '\u{481}' => Some("\\cyrchar\\cyrkoppa"),
        '\u{482}' => Some("\\cyrchar\\cyrthousands"),
        '\u{488}' => Some("\\cyrchar\\cyrhundredthousands"),
        '\u{489}' => Some("\\cyrchar\\cyrmillions"),
        '\u{48C}' => Some("\\CYRSEMISFTSN"),
        '\u{48D}' => Some("\\cyrsemisftsn"),
        '\u{48E}' => Some("\\CYRRTICK"),
        '\u{48F}' => Some("\\cyrrtick"),
        '\u{490}' => Some("\\CYRGUP"),
        '\u{491}' => Some("\\cyrgup"),
        '\u{492}' => Some("\\CYRGHCRS"),
        '\u{493}' => Some("\\cyrghcrs"),
        '\u{494}' => Some("\\CYRGHK"),
        '\u{495}' => Some("\\cyrghk"),
        '\u{496}' => Some("\\CYRZHDSC"),
        '\u{497}' => Some("\\cyrzhdsc"),
        '\u{498}' => Some("\\CYRZDSC"),
        '\u{499}' => Some("\\cyrzdsc"),
        '\u{49A}' => Some("\\CYRKDSC"),
        '\u{49B}' => Some("\\cyrkdsc"),
        '\u{49C}' => Some("\\CYRKVCRS"),
        '\u{49D}' => Some("\\cyrkvcrs"),
        '\u{49E}' => Some("\\CYRKHCRS"),
        '\u{49F}' => Some("\\cyrkhcrs"),
        '\u{4A0}' => Some("\\CYRKBEAK"),
        '\u{4A1}' => Some("\\cyrkbeak"),
        '\u{4A2}' => Some("\\CYRNDSC"),
        '\u{4A3}' => Some("\\cyrndsc"),
        _ => None,
    }
}

/// Part 8 of the transliteration table.
pub open spec fn latex_part_8(c: char) -> Option<Seq<char>> {
    match c {
        '\u{4A4}' => Some("\\CYRNG"@),
        '\u{4A5}' => Some("\\cyrng"@),
        '\u{4A6}' => Some("\\CYRPHK"@),
        '\u{4A7}' => Some("\\cyrphk"@),
        '\u{4A8}' => Some("\\CYRABHHA"@),
        '\u{4A9}' => Some("\\cyrabhha"@),
        '\u{4AA}' => Some("\\CYRSDSC"@),
        '\u{4AB}' => Some("\\cyrsdsc"@),
        '\u{4AC}' => Some("\\CYRTDSC"@),
        '\u{4AD}' => Some("\\cyrtdsc"@),
        '\u{4AE}' => Some("\\CYRY"@),
        '\u{4AF}' => Some("\\cyry"@),
        '\u{4B0}' => Some("\\CYRYHCRS"@),
        '\u{4B1}' => Some("\\cyryhcrs"@),
        '\u{4B2}' => Some("\\CYRHDSC"@),
        '\u{4B3}' => Some("\\cyrhdsc"@),
        '\u{4B4}' => Some("\\CYRTETSE"@),
        '\u{4B5}' => Some("\\cyrtetse"@),
        '\u{4B6}' => Some("\\CYRCHRDSC"@),
        '\u{4B7}' => Some("\\cyrchrdsc"@),
        '\u{4B8}' => Some("\\CYRCHVCRS"@),
        '\u{4B9}' => Some("\\cyrchvcrs"@),
        '\u{4BA}' => Some("\\CYRSHHA"@),
        '\u{4BB}' => Some("\\cyrshha"@),
        '\u{4BC}' => Some("\\CYRABHCH"@),
        '\u{4BD}' => Some("\\cyrabhch"@),
        '\u{4BE}' => Some("\\CYRABHCHDSC"@),
        '\u{4BF}' => Some("\\cyrabhchdsc"@),
        '\u{4C0}' => Some("\\CYRpalochka"@),
        '\u{4C1}' => Some("\\U\\CYRZH"@),
        '\u{4C2}' => Some("\\U\\cyrzh"@),
        '\u{4C3}' => Some("\\CYRKHK"@),
        '\u{4C4}' => Some("\\cyrkhk"@),
        '\u{4C5}' => Some("\\CYRLDSC"@),
        '\u{4C6}' => Some("\\cyrldsc"@),
        '\u{4C7}' => Some("\\CYRNHK"@),
        '\u{4C8}' => Some("\\cyrnhk"@),
        '\u{4CB}' => Some("\\CYRCHLDSC"@),
        '\u{4CC}' => Some("\\cyrchldsc"@),
        '\u{4CD}' => Some("\\CYRMDSC"@),
        '\u{4CE}' => Some("\\cyrmdsc"@),
        '\u{4D0}' => Some("\\U\\CYRA"@),
        '\u{4D1}' => Some("\\U\\cyra"@),
        '\u{4D2}' => Some("\\\"\\CYRA"@),
        '\u{4D3}' => Some("\\\"\\cyra"@),
        '\u{4D4}' => Some("\\CYRAE"@),
        '\u{4D5}' => Some("\\cyrae"@),
        '\u{4D6}' => Some("\\U\\CYRE"@),
        '\u{4D7}' => Some("\\U\\cyre"@),
        '\u{4D8}' => Some("\\CYRSCHWA"@),
        '\u{4D9}' => Some("\\cyrschwa"@),
        '\u{4DA}' => Some("\\\"\\CYRSCHWA"@),
        '\u{4DB}' => Some("\\\"\\cyrschwa"@),
        '\u{4DC}' => Some("\\\"\\CYRZH"@),
        '\u{4DD}' => Some("\\\"\\cyrzh"@),
        '\u{4DE}' => Some("\\\"\\CYRZ"@),
        '\u{4DF}' => Some("\\\"\\cyrz"@),
        '\u{4E0}' => Some("\\CYRABHDZE"@),
        '\u{4E1}' => Some("\\cyrabhdze"@),
        '\u{4E2}' => Some("\\=\\CYRI"@),
        _ => None,
    }
}

fn lookup_part_8(c: char) -> (r: Option<&'static str>)
    ensures
        r matches Some(t) ==> latex_part_8(c) == Some(t@),
        r is None ==> latex_part_8(c) is None,
{
    match c {
        '\u{4A4}' => Some("\\CYRNG"),
        '\u{4A5}' => Some("\\cyrng"),
        '\u{4A6}' => Some("\\CYRPHK"),
        '\u{4A7}' => Some("\\cyrphk"),
        '\u{4A8}' => Some("\\CYRABHHA"),
        '\u{4A9}' => Some("\\cyrabhha"),
        '\u{4AA}' => Some("\\CYRSDSC"),
        '\u{4AB}' => Some("\\cyrsdsc"),
        '\u{4AC}' => Some("\\CYRTDSC"),
        '\u{4AD}' => Some("\\cyrtdsc"),
        '\u{4AE}' => Some("\\CYRY"),
        '\u{4AF}' => Some("\\cyry"),
        '\u{4B0}' => Some("\\CYRYHCRS"),
        '\u{4B1}' => Some("\\cyryhcrs"),
        '\u{4B2}' => Some("\\CYRHDSC"),
        '\u{4B3}' => Some("\\cyrhdsc"),
        '\u{4B4}' => Some("\\CYRTETSE"),
        '\u{4B5}' => Some("\\cyrtetse"),
        '\u{4B6}' => Some("\\CYRCHRDSC"),
        '\u{4B7}' => Some("\\cyrchrdsc"),
        '\u{4B8}' => Some("\\CYRCHVCRS"),
        '\u{4B9}' => Some("\\cyrchvcrs"),
        '\u{4BA}' => Some("\\CYRSHHA"),
        '\u{4BB}' => Some("\\cyrshha"),
        '\u{4BC}' => Some("\\CYRABHCH"),
        '\u{4BD}' => Some("\\cyrabhch"),
        '\u{4BE}' => Some("\\CYRABHCHDSC"),
        '\u{4BF}' => Some("\\cyrabhchdsc"),
        '\u{4C0}' => Some("\\CYRpalochka"),
        '\u{4C1}' => Some("\\U\\CYRZH"),
        '\u{4C2}' => Some("\\U\\cyrzh"),
        '\u{4C3}' => Some("\\CYRKHK"),
        '\u{4C4}' => Some("\\cyrkhk"),
        '\u{4C5}' => Some("\\CYRLDSC"),
        '\u{4C6}' => Some("\\cyrldsc"),
        '\u{4C7}' => Some("\\CYRNHK"),
        '\u{4C8}' => Some("\\cyrnhk"),
        '\u{4CB}' => Some("\\CYRCHLDSC"),
        '\u{4CC}' => Some("\\cyrchldsc"),
        '\u{4CD}' => Some("\\CYRMDSC"),
        '\u{4CE}' => Some("\\cyrmdsc"),
        '\u{4D0}' => Some("\\U\\CYRA"),
        '\u{4D1}' => Some("\\U\\cyra"),
        '\u{4D2}' => Some("\\\"\\CYRA"),
        '\u{4D3}' => Some("\\\"\\cyra"),
        '\u{4D4}' => Some("\\CYRAE"),
        '\u{4D5}' => Some("\\cyrae"),
        '\u{4D6}' => Some("\\U\\CYRE"),
        '\u{4D7}' => Some("\\U\\cyre"),
        '\u{4D8}' => Some("\\CYRSCHWA"),
        '\u{4D9}' => Some("\\cyrschwa"),
        '\u{4DA}' => Some("\\\"\\CYRSCHWA"),
        '\u{4DB}' => Some("\\\"\\cyrschwa"),
        '\u{4DC}' => Some("\\\"\\CYRZH"),
        '\u{4DD}' => Some("\\\"\\cyrzh"),
        '\u{4DE}' => Some("\\\"\\CYRZ"),
        '\u{4DF}' => Some("\\\"\\cyrz"),
        '\u{4E0}' => Some("\\CYRABHDZE"),
        '\u{4E1}' => Some("\\cyrabhdze"),
        '\u{4E2}' => Some("\\=\\CYRI"),
        _ => None,
    }
}

/// Part 9 of the transliteration table.
pub open spec fn latex_part_9(c: char) -> Option<Seq<char>> {
    match c {
        '\u{4E3}' => Some("\\=\\cyri"@),
        '\u{4E4}' => Some("\\\"\\CYRI"@),
        '\u{4E5}' => Some("\\\"\\cyri"@),
        '\u{4E6}' => Some("\\\"\\CYRO"@),
        '\u{4E7}' => Some("\\\"\\cyro"@),
        '\u{4E8}' => Some("\\CYROTLD"@),
        '\u{4E9}' => Some("\\cyrotld"@),
        '\u{4EC}' => Some("\\\"\\CYREREV"@),
        '\u{4ED}' => Some("\\\"\\cyrerev"@),
        '\u{4EE}' => Some("\\=\\CYRU"@),
        '\u{4EF}' => Some("\\=\\cyru"@),
        '\u{4F0}' => Some("\\\"\\CYRU"@),
        '\u{4F1}' => Some("\\\"\\cyru"@),
        '\u{4F2}' => Some("\\H\\CYRU"@),
        '\u{4F3}' => Some("\\H\\cyru"@),
        '\u{4F4}' => Some("\\\"\\CYRCH"@),
        '\u{4F5}' => Some("\\\"\\cyrch"@),
        '\u{4F6}' => Some("\\CYRGDSC"@),
        '\u{4F7}' => Some("\\cyrgdsc"@),
        '\u{4F8}' => Some("\\\"\\CYRERY"@),
        '\u{4F9}' => Some("\\\"\\cyrery"@),
        '\u{4FA}' => Some("\\CYRGDSCHCRS"@),
        '\u{4FB}' => Some("\\cyrgdschcrs"@),
        '\u{4FC}' => Some("\\CYRHHK"@),
        '\u{4FD}' => Some("\\cyrhhk"@),
        '\u{4FE}' => Some("\\CYRHHCRS"@),
        '\u{4FF}' => Some("\\cyrhhcrs"@),
        '\u{E3F}' => Some("\\textbaht"@),
        '\u{2000}' => Some("\\enskip"@),
        '\u{2001}' => Some("\\quad"@),
        '\u{2002}' => Some("\\enskip"@),
        '\u{2003}' => Some("\\quad"@),
        '\u{2004}' => Some("\\hspace{0.33em}"@),
        '\u{2005}' => Some("\\hspace{0.25em}"@),
        '\u{2006}' => Some("\\hspace{0.167em}"@),
        '\u{2007}' => Some("~"@),
        '\u{2008}' => Some("\\;"@),
        '\u{2009}' => Some("\\,"@),
        '\u{200A}' => Some("\\hspace{1pt}"@),
        '\u{200C}' => Some("\\textcompwordmark"@),
        '\u{2010}' => Some("-"@),
        '\u{2011}' => Some("\\nobreakdash-"@),
        '\u{2012}' => Some("-"@),
        '\u{2013}' => Some("\\textendash"@),
        '\u{2014}' => Some("\\textemdash"@),
        '\u{2015}' => Some("\\textemdash"@),
        '\u{2016}' => Some("\\ensuremath{\\Vert}"@),
        '\u{2018}' => Some("\\textquoteleft"@),
        '\u{2019}' => Some("\\textquoteright"@),
        '\u{201A}' => Some("\\quotesinglbase"@),
        '\u{201C}' => Some("\\textquotedblleft"@),
        '\u{201D}' => Some("\\textquotedblright"@),
        '\u{201E}' => Some("\\quotedblbase"@),
        '\u{2020}' => Some("\\textdagger"@),
        '\u{2021}' => Some("\\textdaggerdbl"@),
        '\u{2022}' => Some("\\textbullet"@),
        '\u{2024}' => Some("."@),
        '\u{2025}' => Some(".."@),
        '\u{2026}' => Some("\\textellipsis"@),
        '\u{2030}' => Some("\\textperthousand"@),
        _ => None,
    }
}

fn lookup_part_9(c: char) -> (r: Option<&'static str>)
    ensures
        r matches Some(t) ==> latex_part_9(c) == Some(t@),
        r is None ==> latex_part_9(c) is None,
{
    match c {
        '\u{4E3}' => Some("\\=\\cyri"),
        '\u{4E4}' => Some("\\\"\\CYRI"),
        '\u{4E5}' => Some("\\\"\\cyri"),
        '\u{4E6}' => Some("\\\"\\CYRO"),
        '\u{4E7}' => Some("\\\"\\cyro"),
        '\u{4E8}' => Some("\\CYROTLD"),
        '\u{4E9}' => Some("\\cyrotld"),
        '\u{4EC}' => Some("\\\"\\CYREREV"),
        '\u{4ED}' => Some("\\\"\\cyrerev"),
        '\u{4EE}' => Some("\\=\\CYRU"),
        '\u{4EF}' => Some("\\=\\cyru"),
        '\u{4F0}' => Some("\\\"\\CYRU"),
        '\u{4F1}' => Some("\\\"\\cyru"),
        '\u{4F2}' => Some("\\H\\CYRU"),
        '\u{4F3}' => Some("\\H\\cyru"),
        '\u{4F4}' => Some("\\\"\\CYRCH"),
        '\u{4F5}' => Some("\\\"\\cyrch"),
        '\u{4F6}' => Some("\\CYRGDSC"),
        '\u{4F7}' => Some("\\cyrgdsc"),
        '\u{4F8}' => Some("\\\"\\CYRERY"),
        '\u{4F9}' => Some("\\\"\\cyrery"),
        '\u{4FA}' => Some("\\CYRGDSCHCRS"),
        '\u{4FB}' => Some("\\cyrgdschcrs"),
        '\u{4FC}' => Some("\\CYRHHK"),
        '\u{4FD}' => Some("\\cyrhhk"),
        '\u{4FE}' => Some("\\CYRHHCRS"),
        '\u{4FF}' => Some("\\cyrhhcrs"),
        '\u{E3F}' => Some("\\textbaht"),
        '\u{2000}' => Some("\\enskip"),
        '\u{2001}' => Some("\\quad"),
        '\u{2002}' => Some("\\enskip"),
        '\u{2003}' => Some("\\quad"),
        '\u{2004}' => Some("\\hspace{0.33em}"),
        '\u{2005}' => Some("\\hspace{0.25em}"),
        '\u{2006}' => Some("\\hspace{0.167em}"),
        '\u{2007}' => Some("~"),
        '\u{2008}' => Some("\\;"),
        '\u{2009}' => Some("\\,"),
        '\u{200A}' => Some("\\hspace{1pt}"),
        '\u{200C}' => Some("\\textcompwordmark"),
        '\u{2010}' => Some("-"),
        '\u{2011}' => Some("\\nobreakdash-"),
        '\u{2012}' => Some("-"),
        '\u{2013}' => Some("\\textendash"),
        '\u{2014}' => Some("\\textemdash"),
        '\u{2015}' => Some("\\textemdash"),
        '\u{2016}' => Some("\\ensuremath{\\Vert}"),
        '\u{2018}' => Some("\\textquoteleft"),
        '\u{2019}' => Some("\\textquoteright"),
        '\u{201A}' => Some("\\quotesinglbase"),
        '\u{201C}' => Some("\\textquotedblleft"),
        '\u{201D}' => Some("\\textquotedblright"),
        '\u{201E}' => Some("\\quotedblbase"),
        '\u{2020}' => Some("\\textdagger"),
        '\u{2021}' => Some("\\textdaggerdbl"),
        '\u{2022}' => Some("\\textbullet"),
        '\u{2024}' => Some("."),
        '\u{2025}' => Some(".."),
        '\u{2026}' => Some("\\textellipsis"),
        '\u{2030}' => Some("\\textperthousand"),
        _ => None,
    }
}

/// Part 10 of the transliteration table.
pub open spec fn latex_part_10(c: char) -> Option<Seq<char>> {
    match c {
        '\u{2031}' => Some("\\textpertenthousand"@),
        '\u{2032}' => Some("'"@),
        '\u{2033}' => Some("''"@),
        '\u{2034}' => Some("'''"@),
        '\u{2035}' => Some("\\ensuremath{\\backprime}"@),
        '\u{2039}' => Some("\\guilsinglleft"@),
        '\u{203A}' => Some("\\guilsinglright"@),
        '\u{203B}' => Some("\\textreferencemark"@),
        '\u{203D}' => Some("\\textinterrobang"@),
        '\u{2044}' => Some("\\textfractionsolidus"@),
        '\u{204E}' => Some("\\textasteriskcentered"@),
        '\u{2052}' => Some("\\textdiscount"@),
        '\u{2057}' => Some("''''"@),
        '\u{205F}' => Some("\\hspace{0.22em}"@),
        '\u{2060}' => Some("\\nolinebreak"@),
        '\u{2061}' => Some(""@),
        '\u{20A1}' => Some("\\textcolonmonetary"@),
        '\u{20A4}' => Some("\\textlira"@),
        '\u{20A6}' => Some("\\textnaira"@),
        '\u{20A9}' => Some("\\textwon"@),
        '\u{20AB}' => Some("\\textdong"@),
        '\u{20AC}' => Some("\\texteuro"@),
        '\u{20B1}' => Some("\\textpeso"@),
        '\u{2102}' => Some("\\ensuremath{\\mathbb{C}}"@),
        '\u{2103}' => Some("\\textcelsius"@),
        '\u{2109}' => Some("\\ensuremath{^\\circ}F"@),
        '\u{210A}' => Some("\\ensuremath{g}"@),
        '\u{210B}' => Some("\\ensuremath{\\mathscr{H}}"@),
        '\u{210C}' => Some("\\ensuremath{\\mathfrak{H}}"@),
        '\u{210D}' => Some("\\ensuremath{\\mathbb{H}}"@),
        '\u{210E}' => Some("\\ensuremath{h}"@),
        '\u{210F}' => Some("\\ensuremath{\\hbar}"@),
        '\u{2110}' => Some("\\ensuremath{\\mathscr{I}}"@),
        '\u{2111}' => Some("\\ensuremath{\\mathfrak{I}}"@),
        '\u{2112}' => Some("\\ensuremath{\\mathscr{L}}"@),
        '\u{2113}' => Some("\\ensuremath{\\ell}"@),
        '\u{2115}' => Some("\\ensuremath{\\mathbb{N}}"@),
        '\u{2116}' => Some("\\textnumero"@),
        '\u{2117}' => Some("\\textcircledP"@),
        '\u{2118}' => Some("\\ensuremath{\\wp}"@),
        '\u{2119}' => Some("\\ensuremath{\\mathbb{P}}"@),
        '\u{211A}' => Some("\\ensuremath{\\mathbb{Q}}"@),
        '\u{211B}' => Some("\\ensuremath{\\mathscr{R}}"@),
        '\u{211C}' => Some("\\ensuremath{\\mathfrak{R}}"@),
        '\u{211D}' => Some("\\ensuremath{\\mathbb{R}}"@),
        '\u{211E}' => Some("\\textrecipe"@),
        '\u{2120}' => Some("\\textservicemark"@),
        '\u{2122}' => Some("\\texttrademark"@),
        '\u{2124}' => Some("\\ensuremath{\\mathbb{Z}}"@),
        '\u{2126}' => Some("\\textohm"@),
        '\u{2127}' => Some("\\textmho"@),
        '\u{2128}' => Some("\\ensuremath{\\mathfrak{Z}}"@),
        '\u{212A}' => Some("K"@),
        '\u{212B}' => Some("\\r{A}"@),
        '\u{212C}' => Some("\\ensuremath{\\mathscr{B}}"@),
        '\u{212D}' => Some("\\ensuremath{\\mathfrak{C}}"@),
        '\u{212E}' => Some("\\textestimated"@),
        '\u{212F}' => Some("\\ensuremath{e}"@),
        '\u{2130}' => Some("\\ensuremath{\\mathscr{E}}"@),
        '\u{2131}' => Some("\\ensuremath{\\mathscr{F}}"@),
        _ => None,
    }
}

fn lookup_part_10(c: char) -> (r: Option<&'static str>)
    ensures
        r matches Some(t) ==> latex_part_10(c) == Some(t@),
        r is None ==> latex_part_10(c) is None,
{
    match c {
        '\u{2031}' => Some("\\textpertenthousand"),
        '\u{2032}' => Some("'"),
        '\u{2033}' => Some("''"),
        '\u{2034}' => Some("'''"),
        '\u{2035}' => Some("\\ensuremath{\\backprime}"),
        '\u{2039}' => Some("\\guilsinglleft"),
        '\u{203A}' => Some("\\guilsinglright"),
        '\u{203B}' => Some("\\textreferencemark"),
        '\u{203D}' => Some("\\textinterrobang"),
        '\u{2044}' => Some("\\textfractionsolidus"),
        '\u{204E}' => Some("\\textasteriskcentered"),
        '\u{2052}' => Some("\\textdiscount"),
        '\u{2057}' => Some("''''"),
        '\u{205F}' => Some("\\hspace{0.22em}"),
        '\u{2060}' => Some("\\nolinebreak"),
        '\u{2061}' => Some(""),
        '\u{20A1}' => Some("\\textcolonmonetary"),
        '\u{20A4}' => Some("\\textlira"),
        '\u{20A6}' => Some("\\textnaira"),
        '\u{20A9}' => Some("\\textwon"),
        '\u{20AB}' => Some("\\textdong"),
        '\u{20AC}' => Some("\\texteuro"),
        '\u{20B1}' => Some("\\textpeso"),
        '\u{2102}' => Some("\\ensuremath{\\mathbb{C}}"),
        '\u{2103}' => Some("\\textcelsius"),
        '\u{2109}' => Some("\\ensuremath{^\\circ}F"),
        '\u{210A}' => Some("\\ensuremath{g}"),
        '\u{210B}' => Some("\\ensuremath{\\mathscr{H}}"),
        '\u{210C}' => Some("\\ensuremath{\\mathfrak{H}}"),
        '\u{210D}' => Some("\\ensuremath{\\mathbb{H}}"),
        '\u{210E}' => Some("\\ensuremath{h}"),
        '\u{210F}' => Some("\\ensuremath{\\hbar}"),
        '\u{2110}' => Some("\\ensuremath{\\mathscr{I}}"),
        '\u{2111}' => Some("\\ensuremath{\\mathfrak{I}}"),
        '\u{2112}' => Some("\\ensuremath{\\mathscr{L}}"),
        '\u{2113}' => Some("\\ensuremath{\\ell}"),
        '\u{2115}' => Some("\\ensuremath{\\mathbb{N}}"),
        '\u{2116}' => Some("\\textnumero"),
        '\u{2117}' => Some("\\textcircledP"),
        '\u{2118}' => Some("\\ensuremath{\\wp}"),
        '\u{2119}' => Some("\\ensuremath{\\mathbb{P}}"),
        '\u{211A}' => Some("\\ensuremath{\\mathbb{Q}}"),
        '\u{211B}' => Some("\\ensuremath{\\mathscr{R}}"),
        '\u{211C}' => Some("\\ensuremath{\\mathfrak{R}}"),
        '\u{211D}' => Some("\\ensuremath{\\mathbb{R}}"),
        '\u{211E}' => Some("\\textrecipe"),
        '\u{2120}' => Some("\\textservicemark"),
        '\u{2122}' => Some("\\texttrademark"),
        '\u{2124}' => Some("\\ensuremath{\\mathbb{Z}}"),
        '\u{2126}' => Some("\\textohm"),
        '\u{2127}' => Some("\\textmho"),
        '\u{2128}' => Some("\\ensuremath{\\mathfrak{Z}}"),
        '\u{212A}' => Some("K"),
        '\u{212B}' => Some("\\r{A}"),
        '\u{212C}' => Some("\\ensuremath{\\mathscr{B}}"),
        '\u{212D}' => Some("\\ensuremath{\\mathfrak{C}}"),
        '\u{212E}' => Some("\\textestimated"),
        '\u{212F}' => Some("\\ensuremath{e}"),
        '\u{2130}' => Some("\\ensuremath{\\mathscr{E}}"),
        '\u{2131}' => Some("\\ensuremath{\\mathscr{F}}"),
        _ => None,
    }
}

/// Part 11 of the transliteration table.
pub open spec fn latex_part_11(c: char) -> Option<Seq<char>> {
    match c {
        '\u{2133}' => Some("\\ensuremath{\\mathscr{M}}"@),
        '\u{2134}' => Some("\\ensuremath{o}"@),
        '\u{2135}' => Some("\\ensuremath{\\aleph}"@),
        '\u{2136}' => Some("\\ensuremath{\\beth}"@),
        '\u{2137}' => Some("\\ensuremath{\\gimel}"@),
        '\u{2138}' => Some("\\ensuremath{\\daleth}"@),
        '\u{2153}' => Some("\\textfrac{1}{3}"@),
        '\u{2154}' => Some("\\textfrac{2}{3}"@),
        '\u{2155}' => Some("\\textfrac{1}{5}"@),
        '\u{2156}' => Some("\\textfrac{2}{5}"@),
        '\u{2157}' => Some("\\textfrac{3}{5}"@),
        '\u{2158}' => Some("\\textfrac{4}{5}"@),
        '\u{2159}' => Some("\\textfrac{1}{6}"@),
        '\u{215A}' => Some("\\textfrac{5}{6}"@),
        '\u{215B}' => Some("\\textfrac{1}{8}"@),
        '\u{215C}' => Some("\\textfrac{3}{8}"@),
        '\u{215D}' => Some("\\textfrac{5}{8}"@),
        '\u{215E}' => Some("\\textfrac{7}{8}"@),
        '\u{2190}' => Some("\\textleftarrow"@),
        '\u{2191}' => Some("\\textuparrow"@),
        '\u{2192}' => Some("\\textrightarrow"@),
        '\u{2193}' => Some("\\textdownarrow"@),
        '\u{2194}' => Some("\\ensuremath{\\leftrightarrow}"@),
        '\u{2195}' => Some("\\ensuremath{\\updownarrow}"@),
        '\u{2196}' => Some("\\ensuremath{\\nwarrow}"@),
        '\u{2197}' => Some("\\ensuremath{\\nearrow}"@),
        '\u{2198}' => Some("\\ensuremath{\\searrow}"@),
        '\u{2199}' => Some("\\ensuremath{\\swarrow}"@),
        '\u{219A}' => Some("\\ensuremath{\\nleftarrow}"@),
        '\u{219B}' => Some("\\ensuremath{\\nrightarrow}"@),
        '\u{219C}' => Some("\\ensuremath{\\arrowwaveleft}"@),
        '\u{219D}' => Some("\\ensuremath{\\arrowwaveright}"@),
        '\u{219E}' => Some("\\ensuremath{\\twoheadleftarrow}"@),
        '\u{21A0}' => Some("\\ensuremath{\\twoheadrightarrow}"@),
        '\u{21A2}' => Some("\\ensuremath{\\leftarrowtail}"@),
        '\u{21A3}' => Some("\\ensuremath{\\rightarrowtail}"@),
        '\u{21A6}' => Some("\\ensuremath{\\mapsto}"@),
        '\u{21A9}' => Some("\\ensuremath{\\hookleftarrow}"@),
        '\u{21AA}' => Some("\\ensuremath{\\hookrightarrow}"@),
        '\u{21AB}' => Some("\\ensuremath{\\looparrowleft}"@),
        '\u{21AC}' => Some("\\ensuremath{\\looparrowright}"@),
        '\u{21AD}' => Some("\\ensuremath{\\leftrightsquigarrow}"@),
        '\u{21AE}' => Some("\\ensuremath{\\nleftrightarrow}"@),
        '\u{21B0}' => Some("\\ensuremath{\\Lsh}"@),
        '\u{21B1}' => Some("\\ensuremath{\\Rsh}"@),
        '\u{21B6}' => Some("\\ensuremath{\\curvearrowleft}"@),
        '\u{21B7}' => Some("\\ensuremath{\\curvearrowright}"@),
        '\u{21BA}' => Some("\\ensuremath{\\circlearrowleft}"@),
        '\u{21BB}' => Some("\\ensuremath{\\circlearrowright}"@),
        '\u{21BC}' => Some("\\ensuremath{\\leftharpoonup}"@),
        '\u{21BD}' => Some("\\ensuremath{\\leftharpoondown}"@),
        '\u{21BE}' => Some("\\ensuremath{\\upharpoonright}"@),
        '\u{21BF}' => Some("\\ensuremath{\\upharpoonleft}"@),
        '\u{21C0}' => Some("\\ensuremath{\\rightharpoonup}"@),
        '\u{21C1}' => Some("\\ensuremath{\\rightharpoondown}"@),
        '\u{21C2}' => Some("\\ensuremath{\\downharpoonright}"@),
        '\u{21C3}' => Some("\\ensuremath{\\downharpoonleft}"@),
        '\u{21C4}' => Some("\\ensuremath{\\rightleftarrows}"@),
        '\u{21C5}' => Some("\\ensuremath{\\dblarrowupdown}"@),
        '\u{21C6}' => Some("\\ensuremath{\\leftrightarrows}"@),
        _ => None,
    }
}

fn lookup_part_11(c: char) -> (r: Option<&'static str>)
    ensures
        r matches Some(t) ==> latex_part_11(c) == Some(t@),
        r is None ==> latex_part_11(c) is None,
{
    match c {
        '\u{2133}' => Some("\\ensuremath{\\mathscr{M}}"),
        '\u{2134}' => Some("\\ensuremath{o}"),
        '\u{2135}' => Some("\\ensuremath{\\aleph}"),
        '\u{2136}' => Some("\\ensuremath{\\beth}"),
        '\u{2137}' => Some("\\ensuremath{\\gimel}"),
        '\u{2138}' => Some("\\ensuremath{\\daleth}"),
        '\u{2153}' => Some("\\textfrac{1}{3}"),
        '\u{2154}' => Some("\\textfrac{2}{3}"),
        '\u{2155}' => Some("\\textfrac{1}{5}"),
        '\u{2156}' => Some("\\textfrac{2}{5}"),
        '\u{2157}' => Some("\\textfrac{3}{5}"),
        '\u{2158}' => Some("\\textfrac{4}{5}"),
        '\u{2159}' => Some("\\textfrac{1}{6}"),
        '\u{215A}' => Some("\\textfrac{5}{6}"),
        '\u{215B}' => Some("\\textfrac{1}{8}"),
        '\u{215C}' => Some("\\textfrac{3}{8}"),
        '\u{215D}' => Some("\\textfrac{5}{8}"),
        '\u{215E}' => Some("\\textfrac{7}{8}"),
        '\u{2190}' => Some("\\textleftarrow"),
        '\u{2191}' => Some("\\textuparrow"),
        '\u{2192}' => Some("\\textrightarrow"),
        '\u{2193}' => Some("\\textdownarrow"),
        '\u{2194}' => Some("\\ensuremath{\\leftrightarrow}"),
        '\u{2195}' => Some("\\ensuremath{\\updownarrow}"),
        '\u{2196}' => Some("\\ensuremath{\\nwarrow}"),
        '\u{2197}' => Some("\\ensuremath{\\nearrow}"),
        '\u{2198}' => Some("\\ensuremath{\\searrow}"),
        '\u{2199}' => Some("\\ensuremath{\\swarrow}"),
        '\u{219A}' => Some("\\ensuremath{\\nleftarrow}"),
        '\u{219B}' => Some("\\ensuremath{\\nrightarrow}"),
        '\u{219C}' => Some("\\ensuremath{\\arrowwaveleft}"),
        '\u{219D}' => Some("\\ensuremath{\\arrowwaveright}"),
        '\u{219E}' => Some("\\ensuremath{\\twoheadleftarrow}"),
        '\u{21A0}' => Some("\\ensuremath{\\twoheadrightarrow}"),
        '\u{21A2}' => Some("\\ensuremath{\\leftarrowtail}"),
        '\u{21A3}' => Some("\\ensuremath{\\rightarrowtail}"),
        '\u{21A6}' => Some("\\ensuremath{\\mapsto}"),
        '\u{21A9}' => Some("\\ensuremath{\\hookleftarrow}"),
        '\u{21AA}' => Some("\\ensuremath{\\hookrightarrow}"),
        '\u{21AB}' => Some("\\ensuremath{\\looparrowleft}"),
        '\u{21AC}' => Some("\\ensuremath{\\looparrowright}"),
        '\u{21AD}' => Some("\\ensuremath{\\leftrightsquigarrow}"),
        '\u{21AE}' => Some("\\ensuremath{\\nleftrightarrow}"),
        '\u{21B0}' => Some("\\ensuremath{\\Lsh}"),
        '\u{21B1}' => Some("\\ensuremath{\\Rsh}"),
        '\u{21B6}' => Some("\\ensuremath{\\curvearrowleft}"),
        '\u{21B7}' => Some("\\ensuremath{\\curvearrowright}"),
        '\u{21BA}' => Some("\\ensuremath{\\circlearrowleft}"),
        '\u{21BB}' => Some("\\ensuremath{\\circlearrowright}"),
        '\u{21BC}' => Some("\\ensuremath{\\leftharpoonup}"),
        '\u{21BD}' => Some("\\ensuremath{\\leftharpoondown}"),
        '\u{21BE}' => Some("\\ensuremath{\\upharpoonright}"),
        '\u{21BF}' => Some("\\ensuremath{\\upharpoonleft}"),
        '\u{21C0}' => Some("\\ensuremath{\\rightharpoonup}"),
        '\u{21C1}' => Some("\\ensuremath{\\rightharpoondown}"),
        '\u{21C2}' => Some("\\ensuremath{\\downharpoonright}"),
        '\u{21C3}' => Some("\\ensuremath{\\downharpoonleft}"),
        '\u{21C4}' => Some("\\ensuremath{\\rightleftarrows}"),
        '\u{21C5}' => Some("\\ensuremath{\\dblarrowupdown}"),
        '\u{21C6}' => Some("\\ensuremath{\\leftrightarrows}"),
        _ => None,
    }
}

/// Part 12 of the transliteration table.
pub open spec fn latex_part_12(c: char) -> Option<Seq<char>> {
    match c {
        '\u{21C7}' => Some("\\ensuremath{\\leftleftarrows}"@),
        '\u{21C8}' => Some("\\ensuremath{\\upuparrows}"@),
        '\u{21C9}' => Some("\\ensuremath{\\rightrightarrows}"@),
        '\u{21CA}' => Some("\\ensuremath{\\downdownarrows}"@),
        '\u{21CB}' => Some("\\ensuremath{\\leftrightharpoons}"@),
        '\u{21CC}' => Some("\\ensuremath{\\rightleftharpoons}"@),
        '\u{21CD}' => Some("\\ensuremath{\\nLeftarrow}"@),
        '\u{21CE}' => Some("\\ensuremath{\\nLeftrightarrow}"@),
        '\u{21CF}' => Some("\\ensuremath{\\nRightarrow}"@),
        '\u{21D0}' => Some("\\ensuremath{\\Leftarrow}"@),
        '\u{21D1}' => Some("\\ensuremath{\\Uparrow}"@),
        '\u{21D2}' => Some("\\ensuremath{\\Rightarrow}"@),
        '\u{21D3}' => Some("\\ensuremath{\\Downarrow}"@),
        '\u{21D4}' => Some("\\ensuremath{\\Leftrightarrow}"@),
        '\u{21D5}' => Some("\\ensuremath{\\Updownarrow}"@),
        '\u{21DA}' => Some("\\ensuremath{\\Lleftarrow}"@),
        '\u{21DB}' => Some("\\ensuremath{\\Rrightarrow}"@),
        '\u{21DD}' => Some("\\ensuremath{\\rightsquigarrow}"@),
        '\u{21F5}' => Some("\\ensuremath{\\DownArrowUpArrow}"@),
        '\u{2200}' => Some("\\ensuremath{\\forall}"@),
        '\u{2201}' => Some("\\ensuremath{\\complement}"@),
        '\u{2202}' => Some("\\ensuremath{\\partial}"@),
        '\u{2203}' => Some("\\ensuremath{\\exists}"@),
        '\u{2204}' => Some("\\ensuremath{\\nexists}"@),
        '\u{2205}' => Some("\\ensuremath{\\varnothing}"@),
        '\u{2206}' => Some("\\ensuremath{\\Delta}"@),
        '\u{2207}' => Some("\\ensuremath{\\nabla}"@),
        '\u{2208}' => Some("\\ensuremath{\\in}"@),
        '\u{2209}' => Some("\\ensuremath{\\notin}"@),
        '\u{220A}' => Some("\\ensuremath{\\in}"@),
        '\u{220B}' => Some("\\ensuremath{\\ni}"@),
        '\u{220C}' => Some("\\ensuremath{\\not\\ni}"@),
        '\u{220D}' => Some("\\ensuremath{\\ni}"@),
        '\u{220E}' => Some("\\ensuremath{\\blacksquare}"@),
        '\u{220F}' => Some("\\ensuremath{\\prod}"@),
        '\u{2210}' => Some("\\ensuremath{\\coprod}"@),
        '\u{2211}' => Some("\\ensuremath{\\sum}"@),
        '\u{2212}' => Some("\\ensuremath{-}"@),
        '\u{2213}' => Some("\\ensuremath{\\mp}"@),
        '\u{2214}' => Some("\\ensuremath{\\dotplus}"@),
        '\u{2215}' => Some("\\ensuremath{/}"@),
        '\u{2216}' => Some("\\ensuremath{\\smallsetminus}"@),
        '\u{2217}' => Some("\\ensuremath{*}"@),
        '\u{2218}' => Some("\\ensuremath{\\circ}"@),
        '\u{2219}' => Some("\\ensuremath{\\bullet}"@),
        '\u{221A}' => Some("\\ensuremath{\\sqrt{}}"@),
        '\u{221B}' => Some("\\ensuremath{\\sqrt[3]{}}"@),
        '\u{221C}' => Some("\\ensuremath{\\sqrt[4]{}}"@),
        '\u{221D}' => Some("\\ensuremath{\\propto}"@),
        '\u{221E}' => Some("\\ensuremath{\\infty}"@),
        '\u{221F}' => Some("\\ensuremath{\\rightangle}"@),
        '\u{2220}' => Some("\\ensuremath{\\angle}"@),
        '\u{2221}' => Some("\\ensuremath{\\measuredangle}"@),
        '\u{2222}' => Some("\\ensuremath{\\sphericalangle}"@),
        '\u{2223}' => Some("\\ensuremath{\\mid}"@),
        '\u{2224}' => Some("\\ensuremath{\\nmid}"@),
        '\u{2225}' => Some("\\ensuremath{\\parallel}"@),
        '\u{2226}' => Some("\\ensuremath{\\nparallel}"@),
        '\u{2227}' => Some("\\ensuremath{\\wedge}"@),
        '\u{2228}' => Some("\\ensuremath{\\vee}"@),
        _ => None,
    }
}

fn lookup_part_12(c: char) -> (r: Option<&'static str>)
    ensures
        r matches Some(t) ==> latex_part_12(c) == Some(t@),
        r is None ==> latex_part_12(c) is None,
{
    match c {
        '\u{21C7}' => Some("\\ensuremath{\\leftleftarrows}"),
        '\u{21C8}' => Some("\\ensuremath{\\upuparrows}"),
        '\u{21C9}' => Some("\\ensuremath{\\rightrightarrows}"),
        '\u{21CA}' => Some("\\ensuremath{\\downdownarrows}"),
        '\u{21CB}' => Some("\\ensuremath{\\leftrightharpoons}"),
        '\u{21CC}' => Some("\\ensuremath{\\rightleftharpoons}"),
        '\u{21CD}' => Some("\\ensuremath{\\nLeftarrow}"),
        '\u{21CE}' => Some("\\ensuremath{\\nLeftrightarrow}"),
        '\u{21CF}' => Some("\\ensuremath{\\nRightarrow}"),
        '\u{21D0}' => Some("\\ensuremath{\\Leftarrow}"),
        '\u{21D1}' => Some("\\ensuremath{\\Uparrow}"),
        '\u{21D2}' => Some("\\ensuremath{\\Rightarrow}"),
        '\u{21D3}' => Some("\\ensuremath{\\Downarrow}"),
        '\u{21D4}' => Some("\\ensuremath{\\Leftrightarrow}"),
        '\u{21D5}' => Some("\\ensuremath{\\Updownarrow}"),
        '\u{21DA}' => Some("\\ensuremath{\\Lleftarrow}"),
        '\u{21DB}' => Some("\\ensuremath{\\Rrightarrow}"),
        '\u{21DD}' => Some("\\ensuremath{\\rightsquigarrow}"),
        '\u{21F5}' => Some("\\ensuremath{\\DownArrowUpArrow}"),
        '\u{2200}' => Some("\\ensuremath{\\forall}"),
        '\u{2201}' => Some("\\ensuremath{\\complement}"),
        '\u{2202}' => Some("\\ensuremath{\\partial}"),
        '\u{2203}' => Some("\\ensuremath{\\exists}"),
        '\u{2204}' => Some("\\ensuremath{\\nexists}"),
        '\u{2205}' => Some("\\ensuremath{\\varnothing}"),
        '\u{2206}' => Some("\\ensuremath{\\Delta}"),
        '\u{2207}' => Some("\\ensuremath{\\nabla}"),
        '\u{2208}' => Some("\\ensuremath{\\in}"),
        '\u{2209}' => Some("\\ensuremath{\\notin}"),
        '\u{220A}' => Some("\\ensuremath{\\in}"),
        '\u{220B}' => Some("\\ensuremath{\\ni}"),
        '\u{220C}' => Some("\\ensuremath{\\not\\ni}"),
        '\u{220D}' => Some("\\ensuremath{\\ni}"),
        '\u{220E}' => Some("\\ensuremath{\\blacksquare}"),
        '\u{220F}' => Some("\\ensuremath{\\prod}"),
        '\u{2210}' => Some("\\ensuremath{\\coprod}"),
        '\u{2211}' => Some("\\ensuremath{\\sum}"),
        '\u{2212}' => Some("\\ensuremath{-}"),
        '\u{2213}' => Some("\\ensuremath{\\mp}"),
        '\u{2214}' => Some("\\ensuremath{\\dotplus}"),
        '\u{2215}' => Some("\\ensuremath{/}"),
        '\u{2216}' => Some("\\ensuremath{\\smallsetminus}"),
        '\u{2217}' => Some("\\ensuremath{*}"),
        '\u{2218}' => Some("\\ensuremath{\\circ}"),
        '\u{2219}' => Some("\\ensuremath{\\bullet}"),
        '\u{221A}' => Some("\\ensuremath{\\sqrt{}}"),
        '\u{221B}' => Some("\\ensuremath{\\sqrt[3]{}}"),
        '\u{221C}' => Some("\\ensuremath{\\sqrt[4]{}}"),
        '\u{221D}' => Some("\\ensuremath{\\propto}"),
        '\u{221E}' => Some("\\ensuremath{\\infty}"),
        '\u{221F}' => Some("\\ensuremath{\\rightangle}"),
        '\u{2220}' => Some("\\ensuremath{\\angle}"),
        '\u{2221}' => Some("\\ensuremath{\\measuredangle}"),
        '\u{2222}' => Some("\\ensuremath{\\sphericalangle}"),
        '\u{2223}' => Some("\\ensuremath{\\mid}"),
        '\u{2224}' => Some("\\ensuremath{\\nmid}"),
        '\u{2225}' => Some("\\ensuremath{\\parallel}"),
        '\u{2226}' => Some("\\ensuremath{\\nparallel}"),
        '\u{2227}' => Some("\\ensuremath{\\wedge}"),
        '\u{2228}' => Some("\\ensuremath{\\vee}"),
        _ => None,
    }
}

/// Part 13 of the transliteration table.
pub open spec fn latex_part_13(c: char) -> Option<Seq<char>> {
    match c {
        '\u{2229}' => Some("\\ensuremath{\\cap}"@),
        '\u{222A}' => Some("\\ensuremath{\\cup}"@),
        '\u{222B}' => Some("\\ensuremath{\\int}"@),
        '\u{222C}' => Some("\\ensuremath{\\iint}"@),
        '\u{222D}' => Some("\\ensuremath{\\iiint}"@),
        '\u{222E}' => Some("\\ensuremath{\\oint}"@),
        '\u{222F}' => Some("\\ensuremath{\\surfintegral}"@),
        '\u{2230}' => Some("\\ensuremath{\\volintegral}"@),
        '\u{2231}' => Some("\\ensuremath{\\clwintegral}"@),
        '\u{2234}' => Some("\\ensuremath{\\therefore}"@),
        '\u{2235}' => Some("\\ensuremath{\\because}"@),
        '\u{2236}' => Some("\\ensuremath{:}"@),
        '\u{2237}' => Some("\\ensuremath{::}"@),
        '\u{223A}' => Some("\\ensuremath{\\mathbin{{:}\\!\\!{-}\\!\\!{:}}}"@),
        '\u{223B}' => Some("\\ensuremath{\\homothetic}"@),
        '\u{223C}' => Some("\\ensuremath{\\sim}"@),
        '\u{223D}' => Some("\\ensuremath{\\backsim}"@),
        '\u{223E}' => Some("\\ensuremath{\\lazysinv}"@),
        '\u{2240}' => Some("\\ensuremath{\\wr}"@),
        '\u{2241}' => Some("\\ensuremath{\\not\\sim}"@),
        '\u{2243}' => Some("\\ensuremath{\\simeq}"@),
        '\u{2244}' => Some("\\ensuremath{\\not\\simeq}"@),
        '\u{2245}' => Some("\\ensuremath{\\cong}"@),
        '\u{2246}' => Some("\\ensuremath{\\approxnotequal}"@),
        '\u{2247}' => Some("\\ensuremath{\\not\\cong}"@),
        '\u{2248}' => Some("\\ensuremath{\\approx}"@),
        '\u{2249}' => Some("\\ensuremath{\\not\\approx}"@),
        '\u{224A}' => Some("\\ensuremath{\\approxeq}"@),
        '\u{224B}' => Some("\\ensuremath{\\tildetrpl}"@),
        '\u{224C}' => Some("\\ensuremath{\\allequal}"@),
        '\u{224D}' => Some("\\ensuremath{\\asymp}"@),
        '\u{224E}' => Some("\\ensuremath{\\Bumpeq}"@),
        '\u{224F}' => Some("\\ensuremath{\\bumpeq}"@),
        '\u{2250}' => Some("\\ensuremath{\\doteq}"@),
        '\u{2251}' => Some("\\ensuremath{\\doteqdot}"@),
        '\u{2252}' => Some("\\ensuremath{\\fallingdotseq}"@),
        '\u{2253}' => Some("\\ensuremath{\\risingdotseq}"@),
        '\u{2254}' => Some("\\ensuremath{:=}"@),
        '\u{2255}' => Some("\\ensuremath{=:}"@),
        '\u{2256}' => Some("\\ensuremath{\\eqcirc}"@),
        '\u{2257}' => Some("\\ensuremath{\\circeq}"@),
        '\u{2259}' => Some("\\ensuremath{\\estimates}"@),
        '\u{225B}' => Some("\\ensuremath{\\starequal}"@),
        '\u{225C}' => Some("\\ensuremath{\\triangleq}"@),
        '\u{2260}' => Some("\\ensuremath{\\neq}"@),
        '\u{2261}' => Some("\\ensuremath{\\equiv}"@),
        '\u{2262}' => Some("\\ensuremath{\\not\\equiv}"@),
        '\u{2264}' => Some("\\ensuremath{\\leq}"@),
        '\u{2265}' => Some("\\ensuremath{\\geq}"@),
        '\u{2266}' => Some("\\ensuremath{\\leqq}"@),
        '\u{2267}' => Some("\\ensuremath{\\geqq}"@),
        '\u{2268}' => Some("\\ensuremath{\\lneqq}"@),
        '\u{2269}' => Some("\\ensuremath{\\gneqq}"@),
        '\u{226A}' => Some("\\ensuremath{\\ll}"@),
        '\u{226B}' => Some("\\ensuremath{\\gg}"@),
        '\u{226C}' => Some("\\ensuremath{\\between}"@),
        '\u{226D}' => Some("\\ensuremath{\\not\\kern-0.3em\\times}"@),
        '\u{226E}' => Some("\\ensuremath{\\nless}"@),
        '\u{226F}' => Some("\\ensuremath{\\ngtr}"@),
        '\u{2270}' => Some("\\ensuremath{\\nleq}"@),
        _ => None,
    }
}

fn lookup_part_13(c: char) -> (r: Option<&'static str>)
    ensures
        r matches Some(t) ==> latex_part_13(c) == Some(t@),
        r is None ==> latex_part_13(c) is None,
{
    match c {
        '\u{2229}' => Some("\\ensuremath{\\cap}"),
        '\u{222A}' => Some("\\ensuremath{\\cup}"),
        '\u{222B}' => Some("\\ensuremath{\\int}"),
        '\u{222C}' => Some("\\ensuremath{\\iint}"),
        '\u{222D}' => Some("\\ensuremath{\\iiint}"),
        '\u{222E}' => Some("\\ensuremath{\\oint}"),
        '\u{222F}' => Some("\\ensuremath{\\surfintegral}"),
        '\u{2230}' => Some("\\ensuremath{\\volintegral}"),
        '\u{2231}' => Some("\\ensuremath{\\clwintegral}"),
        '\u{2234}' => Some("\\ensuremath{\\therefore}"),
        '\u{2235}' => Some("\\ensuremath{\\because}"),
        '\u{2236}' => Some("\\ensuremath{:}"),
        '\u{2237}' => Some("\\ensuremath{::}"),
        '\u{223A}' => Some("\\ensuremath{\\mathbin{{:}\\!\\!{-}\\!\\!{:}}}"),
        '\u{223B}' => Some("\\ensuremath{\\homothetic}"),
        '\u{223C}' => Some("\\ensuremath{\\sim}"),
        '\u{223D}' => Some("\\ensuremath{\\backsim}"),
        '\u{223E}' => Some("\\ensuremath{\\lazysinv}"),
        '\u{2240}' => Some("\\ensuremath{\\wr}"),
        '\u{2241}' => Some("\\ensuremath{\\not\\sim}"),
        '\u{2243}' => Some("\\ensuremath{\\simeq}"),
        '\u{2244}' => Some("\\ensuremath{\\not\\simeq}"),
        '\u{2245}' => Some("\\ensuremath{\\cong}"),
        '\u{2246}' => Some("\\ensuremath{\\approxnotequal}"),
        '\u{2247}' => Some("\\ensuremath{\\not\\cong}"),
        '\u{2248}' => Some("\\ensuremath{\\approx}"),
        '\u{2249}' => Some("\\ensuremath{\\not\\approx}"),
        '\u{224A}' => Some("\\ensuremath{\\approxeq}"),
        '\u{224B}' => Some("\\ensuremath{\\tildetrpl}"),
        '\u{224C}' => Some("\\ensuremath{\\allequal}"),
        '\u{224D}' => Some("\\ensuremath{\\asymp}"),
        '\u{224E}' => Some("\\ensuremath{\\Bumpeq}"),
        '\u{224F}' => Some("\\ensuremath{\\bumpeq}"),
        '\u{2250}' => Some("\\ensuremath{\\doteq}"),
        '\u{2251}' => Some("\\ensuremath{\\doteqdot}"),
        '\u{2252}' => Some("\\ensuremath{\\fallingdotseq}"),
        '\u{2253}' => Some("\\ensuremath{\\risingdotseq}"),
        '\u{2254}' => Some("\\ensuremath{:=}"),
        '\u{2255}' => Some("\\ensuremath{=:}"),
        '\u{2256}' => Some("\\ensuremath{\\eqcirc}"),
        '\u{2257}' => Some("\\ensuremath{\\circeq}"),
        '\u{2259}' => Some("\\ensuremath{\\estimates}"),
        '\u{225B}' => Some("\\ensuremath{\\starequal}"),
        '\u{225C}' => Some("\\ensuremath{\\triangleq}"),
        '\u{2260}' => Some("\\ensuremath{\\neq}"),
        '\u{2261}' => Some("\\ensuremath{\\equiv}"),
        '\u{2262}' => Some("\\ensuremath{\\not\\equiv}"),
        '\u{2264}' => Some("\\ensuremath{\\leq}"),
        '\u{2265}' => Some("\\ensuremath{\\geq}"),
        '\u{2266}' => Some("\\ensuremath{\\leqq}"),
        '\u{2267}' => Some("\\ensuremath{\\geqq}"),
        '\u{2268}' => Some("\\ensuremath{\\lneqq}"),
        '\u{2269}' => Some("\\ensuremath{\\gneqq}"),
        '\u{226A}' => Some("\\ensuremath{\\ll}"),
        '\u{226B}' => Some("\\ensuremath{\\gg}"),
        '\u{226C}' => Some("\\ensuremath{\\between}"),
        '\u{226D}' => Some("\\ensuremath{\\not\\kern-0.3em\\times}"),
        '\u{226E}' => Some("\\ensuremath{\\nless}"),
        '\u{226F}' => Some("\\ensuremath{\\ngtr}"),
        '\u{2270}' => Some("\\ensuremath{\\nleq}"),
        _ => None,
    }
}

/// Part 14 of the transliteration table.
pub open spec fn latex_part_14(c: char) -> Option<Seq<char>> {
    match c {
        '\u{2271}' => Some("\\ensuremath{\\ngeq}"@),
        '\u{2272}' => Some("\\ensuremath{\\lesssim}"@),
        '\u{2273}' => Some("\\ensuremath{\\gtrsim}"@),
        '\u{2274}' => Some("\\ensuremath{\\not\\lesssim}"@),
        '\u{2275}' => Some("\\ensuremath{\\not\\gtrsim}"@),
        '\u{2276}' => Some("\\ensuremath{\\lessgtr}"@),
        '\u{2277}' => Some("\\ensuremath{\\gtrless}"@),
        '\u{2278}' => Some("\\ensuremath{\\notlessgreater}"@),
        '\u{2279}' => Some("\\ensuremath{\\notgreaterless}"@),
        '\u{227A}' => Some("\\ensuremath{\\prec}"@),
        '\u{227B}' => Some("\\ensuremath{\\succ}"@),
        '\u{227C}' => Some("\\ensuremath{\\preceq}"@),
        '\u{227D}' => Some("\\ensuremath{\\succeq}"@),
        '\u{227E}' => Some("\\ensuremath{\\precsim}"@),
        '\u{227F}' => Some("\\ensuremath{\\succsim}"@),
        '\u{2280}' => Some("\\ensuremath{\\nprec}"@),
        '\u{2281}' => Some("\\ensuremath{\\nsucc}"@),
        '\u{2282}' => Some("\\ensuremath{\\subset}"@),
        '\u{2283}' => Some("\\ensuremath{\\supset}"@),
        '\u{2284}' => Some("\\ensuremath{\\not\\subset}"@),
        '\u{2285}' => Some("\\ensuremath{\\not\\supset}"@),
        '\u{2286}' => Some("\\ensuremath{\\subseteq}"@),
        '\u{2287}' => Some("\\ensuremath{\\supseteq}"@),
        '\u{2288}' => Some("\\ensuremath{\\nsubseteq}"@),
        '\u{2289}' => Some("\\ensuremath{\\nsupseteq}"@),
        '\u{228A}' => Some("\\ensuremath{\\subsetneq}"@),
        '\u{228B}' => Some("\\ensuremath{\\supsetneq}"@),
        '\u{228E}' => Some("\\ensuremath{\\uplus}"@),
        '\u{228F}' => Some("\\ensuremath{\\sqsubset}"@),
        '\u{2290}' => Some("\\ensuremath{\\sqsupset}"@),
        '\u{2291}' => Some("\\ensuremath{\\sqsubseteq}"@),
        '\u{2292}' => Some("\\ensuremath{\\sqsupseteq}"@),
        '\u{2293}' => Some("\\ensuremath{\\sqcap}"@),
        '\u{2294}' => Some("\\ensuremath{\\sqcup}"@),
        '\u{2295}' => Some("\\ensuremath{\\oplus}"@),
        '\u{2296}' => Some("\\ensuremath{\\ominus}"@),
        '\u{2297}' => Some("\\ensuremath{\\otimes}"@),
        '\u{2298}' => Some("\\ensuremath{\\oslash}"@),
        '\u{2299}' => Some("\\ensuremath{\\odot}"@),
        '\u{229A}' => Some("\\ensuremath{\\circledcirc}"@),
        '\u{229B}' => Some("\\ensuremath{\\circledast}"@),
        '\u{229D}' => Some("\\ensuremath{\\circleddash}"@),
        '\u{229E}' => Some("\\ensuremath{\\boxplus}"@),
        '\u{229F}' => Some("\\ensuremath{\\boxminus}"@),
        '\u{22A0}' => Some("\\ensuremath{\\boxtimes}"@),
        '\u{22A1}' => Some("\\ensuremath{\\boxdot}"@),
        '\u{22A2}' => Some("\\ensuremath{\\vdash}"@),
        '\u{22A3}' => Some("\\ensuremath{\\dashv}"@),
        '\u{22A4}' => Some("\\ensuremath{\\top}"@),
        '\u{22A5}' => Some("\\ensuremath{\\perp}"@),
        '\u{22A7}' => Some("\\ensuremath{\\truestate}"@),
        '\u{22A8}' => Some("\\ensuremath{\\forcesextra}"@),
        '\u{22A9}' => Some("\\ensuremath{\\Vdash}"@),
        '\u{22AA}' => Some("\\ensuremath{\\Vvdash}"@),
        '\u{22AB}' => Some("\\ensuremath{\\VDash}"@),
        '\u{22AC}' => Some("\\ensuremath{\\nvdash}"@),
        '\u{22AD}' => Some("\\ensuremath{\\nvDash}"@),
        '\u{22AE}' => Some("\\ensuremath{\\nVdash}"@),
        '\u{22AF}' => Some("\\ensuremath{\\nVDash}"@),
        '\u{22B2}' => Some("\\ensuremath{\\vartriangleleft}"@),
        _ => None,
    }
}

fn lookup_part_14(c: char) -> (r: Option<&'static str>)
    ensures
        r matches Some(t) ==> latex_part_14(c) == Some(t@),
        r is None ==> latex_part_14(c) is None,
{
    match c {
        '\u{2271}' => Some("\\ensuremath{\\ngeq}"),
        '\u{2272}' => Some("\\ensuremath{\\lesssim}"),
        '\u{2273}' => Some("\\ensuremath{\\gtrsim}"),
        '\u{2274}' => Some("\\ensuremath{\\not\\lesssim}"),
        '\u{2275}' => Some("\\ensuremath{\\not\\gtrsim}"),
        '\u{2276}' => Some("\\ensuremath{\\lessgtr}"),
        '\u{2277}' => Some("\\ensuremath{\\gtrless}"),
        '\u{2278}' => Some("\\ensuremath{\\notlessgreater}"),
        '\u{2279}' => Some("\\ensuremath{\\notgreaterless}"),
        '\u{227A}' => Some("\\ensuremath{\\prec}"),
        '\u{227B}' => Some("\\ensuremath{\\succ}"),
        '\u{227C}' => Some("\\ensuremath{\\preceq}"),
        '\u{227D}' => Some("\\ensuremath{\\succeq}"),
        '\u{227E}' => Some("\\ensuremath{\\precsim}"),
        '\u{227F}' => Some("\\ensuremath{\\succsim}"),
        '\u{2280}' => Some("\\ensuremath{\\nprec}"),
        '\u{2281}' => Some("\\ensuremath{\\nsucc}"),
        '\u{2282}' => Some("\\ensuremath{\\subset}"),
        '\u{2283}' => Some("\\ensuremath{\\supset}"),
        '\u{2284}' => Some("\\ensuremath{\\not\\subset}"),
        '\u{2285}' => Some("\\ensuremath{\\not\\supset}"),
        '\u{2286}' => Some("\\ensuremath{\\subseteq}"),
        '\u{2287}' => Some("\\ensuremath{\\supseteq}"),
        '\u{2288}' => Some("\\ensuremath{\\nsubseteq}"),
        '\u{2289}' => Some("\\ensuremath{\\nsupseteq}"),
        '\u{228A}' => Some("\\ensuremath{\\subsetneq}"),
        '\u{228B}' => Some("\\ensuremath{\\supsetneq}"),
        '\u{228E}' => Some("\\ensuremath{\\uplus}"),
        '\u{228F}' => Some("\\ensuremath{\\sqsubset}"),
        '\u{2290}' => Some("\\ensuremath{\\sqsupset}"),
        '\u{2291}' => Some("\\ensuremath{\\sqsubseteq}"),
        '\u{2292}' => Some("\\ensuremath{\\sqsupseteq}"),
        '\u{2293}' => Some("\\ensuremath{\\sqcap}"),
        '\u{2294}' => Some("\\ensuremath{\\sqcup}"),
        '\u{2295}' => Some("\\ensuremath{\\oplus}"),
        '\u{2296}' => Some("\\ensuremath{\\ominus}"),
        '\u{2297}' => Some("\\ensuremath{\\otimes}"),
        '\u{2298}' => Some("\\ensuremath{\\oslash}"),
        '\u{2299}' => Some("\\ensuremath{\\odot}"),
        '\u{229A}' => Some("\\ensuremath{\\circledcirc}"),
        '\u{229B}' => Some("\\ensuremath{\\circledast}"),
        '\u{229D}' => Some("\\ensuremath{\\circleddash}"),
        '\u{229E}' => Some("\\ensuremath{\\boxplus}"),
        '\u{229F}' => Some("\\ensuremath{\\boxminus}"),
        '\u{22A0}' => Some("\\ensuremath{\\boxtimes}"),
        '\u{22A1}' => Some("\\ensuremath{\\boxdot}"),
        '\u{22A2}' => Some("\\ensuremath{\\vdash}"),
        '\u{22A3}' => Some("\\ensuremath{\\dashv}"),
        '\u{22A4}' => Some("\\ensuremath{\\top}"),
        '\u{22A5}' => Some("\\ensuremath{\\perp}"),
        '\u{22A7}' => Some("\\ensuremath{\\truestate}"),
        '\u{22A8}' => Some("\\ensuremath{\\forcesextra}"),
        '\u{22A9}' => Some("\\ensuremath{\\Vdash}"),
        '\u{22AA}' => Some("\\ensuremath{\\Vvdash}"),
        '\u{22AB}' => Some("\\ensuremath{\\VDash}"),
        '\u{22AC}' => Some("\\ensuremath{\\nvdash}"),
        '\u{22AD}' => Some("\\ensuremath{\\nvDash}"),
        '\u{22AE}' => Some("\\ensuremath{\\nVdash}"),
        '\u{22AF}' => Some("\\ensuremath{\\nVDash}"),
        '\u{22B2}' => Some("\\ensuremath{\\vartriangleleft}"),
        _ => None,
    }
}

/// Part 15 of the transliteration table.
pub open spec fn latex_part_15(c: char) -> Option<Seq<char>> {
    match c {
        '\u{22B3}' => Some("\\ensuremath{\\vartriangleright}"@),
        '\u{22B4}' => Some("\\ensuremath{\\trianglelefteq}"@),
        '\u{22B5}' => Some("\\ensuremath{\\trianglerighteq}"@),
        '\u{22B6}' => Some("\\ensuremath{\\original}"@),
        '\u{22B7}' => Some("\\ensuremath{\\image}"@),
        '\u{22B8}' => Some("\\ensuremath{\\multimap}"@),
        '\u{22B9}' => Some("\\ensuremath{\\hermitconjmatrix}"@),
        '\u{22BA}' => Some("\\ensuremath{\\intercal}"@),
        '\u{22BB}' => Some("\\ensuremath{\\veebar}"@),
        '\u{22BE}' => Some("\\ensuremath{\\rightanglearc}"@),
        '\u{22C0}' => Some("\\ensuremath{\\bigwedge}"@),
        '\u{22C1}' => Some("\\ensuremath{\\bigvee}"@),
        '\u{22C2}' => Some("\\ensuremath{\\bigcap}"@),
        '\u{22C3}' => Some("\\ensuremath{\\bigcup}"@),
        '\u{22C4}' => Some("\\ensuremath{\\diamond}"@),
        '\u{22C5}' => Some("\\ensuremath{\\cdot}"@),
        '\u{22C6}' => Some("\\ensuremath{\\star}"@),
        '\u{22C7}' => Some("\\ensuremath{\\divideontimes}"@),
        '\u{22C8}' => Some("\\ensuremath{\\bowtie}"@),
        '\u{22C9}' => Some("\\ensuremath{\\ltimes}"@),
        '\u{22CA}' => Some("\\ensuremath{\\rtimes}"@),
        '\u{22CB}' => Some("\\ensuremath{\\leftthreetimes}"@),
        '\u{22CC}' => Some("\\ensuremath{\\rightthreetimes}"@),
        '\u{22CD}' => Some("\\ensuremath{\\backsimeq}"@),
        '\u{22CE}' => Some("\\ensuremath{\\curlyvee}"@),
        '\u{22CF}' => Some("\\ensuremath{\\curlywedge}"@),
        '\u{22D0}' => Some("\\ensuremath{\\Subset}"@),
        '\u{22D1}' => Some("\\ensuremath{\\Supset}"@),
        '\u{22D2}' => Some("\\ensuremath{\\Cap}"@),
        '\u{22D3}' => Some("\\ensuremath{\\Cup}"@),
        '\u{22D4}' => Some("\\ensuremath{\\pitchfork}"@),
        '\u{22D6}' => Some("\\ensuremath{\\lessdot}"@),
        '\u{22D7}' => Some("\\ensuremath{\\gtrdot}"@),
        '\u{22D8}' => Some("\\ensuremath{\\verymuchless}"@),
        '\u{22D9}' => Some("\\ensuremath{\\verymuchgreater}"@),
        '\u{22DA}' => Some("\\ensuremath{\\lesseqgtr}"@),
        '\u{22DB}' => Some("\\ensuremath{\\gtreqless}"@),
        '\u{22DE}' => Some("\\ensuremath{\\curlyeqprec}"@),
        '\u{22DF}' => Some("\\ensuremath{\\curlyeqsucc}"@),
        '\u{22E2}' => Some("\\ensuremath{\\not\\sqsubseteq}"@),
        '\u{22E3}' => Some("\\ensuremath{\\not\\sqsupseteq}"@),
        '\u{22E6}' => Some("\\ensuremath{\\lnsim}"@),
        '\u{22E7}' => Some("\\ensuremath{\\gnsim}"@),
        '\u{22E8}' => Some("\\ensuremath{\\precedesnotsimilar}"@),
        '\u{22E9}' => Some("\\ensuremath{\\succnsim}"@),
        '\u{22EA}' => Some("\\ensuremath{\\ntriangleleft}"@),
        '\u{22EB}' => Some("\\ensuremath{\\ntriangleright}"@),
        '\u{22EC}' => Some("\\ensuremath{\\ntrianglelefteq}"@),
        '\u{22ED}' => Some("\\ensuremath{\\ntrianglerighteq}"@),
        '\u{22EE}' => Some("\\ensuremath{\\vdots}"@),
        '\u{22EF}' => Some("\\ensuremath{\\cdots}"@),
        '\u{22F0}' => Some("\\ensuremath{\\udots}"@),
        '\u{22F1}' => Some("\\ensuremath{\\ddots}"@),
        '\u{2305}' => Some("\\ensuremath{\\barwedge}"@),
        '\u{2306}' => Some("\\ensuremath{\\varperspcorrespond}"@),
        '\u{2308}' => Some("\\ensuremath{\\lceil}"@),
        '\u{2309}' => Some("\\ensuremath{\\rceil}"@),
        '\u{230A}' => Some("\\ensuremath{\\lfloor}"@),
        '\u{230B}' => Some("\\ensuremath{\\rfloor}"@),
        '\u{2315}' => Some("\\ensuremath{\\recorder}"@),
        _ => None,
    }
}

fn lookup_part_15(c: char) -> (r: Option<&'static str>)
    ensures
        r matches Some(t) ==> latex_part_15(c) == Some(t@),
        r is None ==> latex_part_15(c) is None,
{
    match c {
        '\u{22B3}' => Some("\\ensuremath{\\vartriangleright}"),
        '\u{22B4}' => Some("\\ensuremath{\\trianglelefteq}"),
        '\u{22B5}' => Some("\\ensuremath{\\trianglerighteq}"),
        '\u{22B6}' => Some("\\ensuremath{\\original}"),
        '\u{22B7}' => Some("\\ensuremath{\\image}"),
        '\u{22B8}' => Some("\\ensuremath{\\multimap}"),
        '\u{22B9}' => Some("\\ensuremath{\\hermitconjmatrix}"),
        '\u{22BA}' => Some("\\ensuremath{\\intercal}"),
        '\u{22BB}' => Some("\\ensuremath{\\veebar}"),
        '\u{22BE}' => Some("\\ensuremath{\\rightanglearc}"),
        '\u{22C0}' => Some("\\ensuremath{\\bigwedge}"),
        '\u{22C1}' => Some("\\ensuremath{\\bigvee}"),
        '\u{22C2}' => Some("\\ensuremath{\\bigcap}"),
        '\u{22C3}' => Some("\\ensuremath{\\bigcup}"),
        '\u{22C4}' => Some("\\ensuremath{\\diamond}"),
        '\u{22C5}' => Some("\\ensuremath{\\cdot}"),
        '\u{22C6}' => Some("\\ensuremath{\\star}"),
        '\u{22C7}' => Some("\\ensuremath{\\divideontimes}"),
        '\u{22C8}' => Some("\\ensuremath{\\bowtie}"),
        '\u{22C9}' => Some("\\ensuremath{\\ltimes}"),
        '\u{22CA}' => Some("\\ensuremath{\\rtimes}"),
        '\u{22CB}' => Some("\\ensuremath{\\leftthreetimes}"),
        '\u{22CC}' => Some("\\ensuremath{\\rightthreetimes}"),
        '\u{22CD}' => Some("\\ensuremath{\\backsimeq}"),
        '\u{22CE}' => Some("\\ensuremath{\\curlyvee}"),
        '\u{22CF}' => Some("\\ensuremath{\\curlywedge}"),
        '\u{22D0}' => Some("\\ensuremath{\\Subset}"),
        '\u{22D1}' => Some("\\ensuremath{\\Supset}"),
        '\u{22D2}' => Some("\\ensuremath{\\Cap}"),
        '\u{22D3}' => Some("\\ensuremath{\\Cup}"),
        '\u{22D4}' => Some("\\ensuremath{\\pitchfork}"),
        '\u{22D6}' => Some("\\ensuremath{\\lessdot}"),
        '\u{22D7}' => Some("\\ensuremath{\\gtrdot}"),
        '\u{22D8}' => Some("\\ensuremath{\\verymuchless}"),
        '\u{22D9}' => Some("\\ensuremath{\\verymuchgreater}"),
        '\u{22DA}' => Some("\\ensuremath{\\lesseqgtr}"),
        '\u{22DB}' => Some("\\ensuremath{\\gtreqless}"),
        '\u{22DE}' => Some("\\ensuremath{\\curlyeqprec}"),
        '\u{22DF}' => Some("\\ensuremath{\\curlyeqsucc}"),
        '\u{22E2}' => Some("\\ensuremath{\\not\\sqsubseteq}"),
        '\u{22E3}' => Some("\\ensuremath{\\not\\sqsupseteq}"),
        '\u{22E6}' => Some("\\ensuremath{\\lnsim}"),
        '\u{22E7}' => Some("\\ensuremath{\\gnsim}"),
        '\u{22E8}' => Some("\\ensuremath{\\precedesnotsimilar}"),
        '\u{22E9}' => Some("\\ensuremath{\\succnsim}"),
        '\u{22EA}' => Some("\\ensuremath{\\ntriangleleft}"),
        '\u{22EB}' => Some("\\ensuremath{\\ntriangleright}"),
        '\u{22EC}' => Some("\\ensuremath{\\ntrianglelefteq}"),
        '\u{22ED}' => Some("\\ensuremath{\\ntrianglerighteq}"),
        '\u{22EE}' => Some("\\ensuremath{\\vdots}"),
        '\u{22EF}' => Some("\\ensuremath{\\cdots}"),
        '\u{22F0}' => Some("\\ensuremath{\\udots}"),
        '\u{22F1}' => Some("\\ensuremath{\\ddots}"),
        '\u{2305}' => Some("\\ensuremath{\\barwedge}"),
        '\u{2306}' => Some("\\ensuremath{\\varperspcorrespond}"),
        '\u{2308}' => Some("\\ensuremath{\\lceil}"),
        '\u{2309}' => Some("\\ensuremath{\\rceil}"),
        '\u{230A}' => Some("\\ensuremath{\\lfloor}"),
        '\u{230B}' => Some("\\ensuremath{\\rfloor}"),
        '\u{2315}' => Some("\\ensuremath{\\recorder}"),
        _ => None,
    }
}

/// Part 16 of the transliteration table.
pub open spec fn latex_part_16(c: char) -> Option<Seq<char>> {
    match c {
        '\u{2316}' => Some("\\ensuremath{\\mathchar\"2208}"@),
        '\u{231C}' => Some("\\ensuremath{\\ulcorner}"@),
        '\u{231D}' => Some("\\ensuremath{\\urcorner}"@),
        '\u{231E}' => Some("\\ensuremath{\\llcorner}"@),
        '\u{231F}' => Some("\\ensuremath{\\lrcorner}"@),
        '\u{2322}' => Some("\\ensuremath{\\frown}"@),
        '\u{2323}' => Some("\\ensuremath{\\smile}"@),
        '\u{2329}' => Some("\\textlangle"@),
        '\u{232A}' => Some("\\textrangle"@),
        '\u{23B0}' => Some("\\ensuremath{\\lmoustache}"@),
        '\u{23B1}' => Some("\\ensuremath{\\rmoustache}"@),
        '\u{2422}' => Some("\\textblank"@),
        '\u{2423}' => Some("\\textvisiblespace"@),
        '\u{25A0}' => Some("\\ensuremath{\\blacksquare}"@),
        '\u{25A1}' => Some("\\ensuremath{\\square}"@),
        '\u{25AA}' => Some("{\\small\\ensuremath{\\blacksquare}}"@),
        '\u{25AD}' => Some("\\fbox{~~}"@),
        '\u{25B3}' => Some("\\ensuremath{\\bigtriangleup}"@),
        '\u{25B4}' => Some("\\ensuremath{\\blacktriangle}"@),
        '\u{25B5}' => Some("\\ensuremath{\\vartriangle}"@),
        '\u{25B8}' => Some("\\ensuremath{\\blacktriangleright}"@),
        '\u{25B9}' => Some("\\ensuremath{\\triangleright}"@),
        '\u{25BD}' => Some("\\ensuremath{\\bigtriangledown}"@),
        '\u{25BE}' => Some("\\ensuremath{\\blacktriangledown}"@),
        '\u{25BF}' => Some("\\ensuremath{\\triangledown}"@),
        '\u{25C2}' => Some("\\ensuremath{\\blacktriangleleft}"@),
        '\u{25C3}' => Some("\\ensuremath{\\triangleleft}"@),
        '\u{25CA}' => Some("\\ensuremath{\\lozenge}"@),
        '\u{25CB}' => Some("\\ensuremath{\\bigcirc}"@),
        '\u{25E6}' => Some("\\textopenbullet"@),
        '\u{25EF}' => Some("\\textbigcircle"@),
        '\u{2662}' => Some("\\ensuremath{\\diamond}"@),
        '\u{2669}' => Some("\\quarternote"@),
        '\u{266A}' => Some("\\textmusicalnote"@),
        '\u{266D}' => Some("\\flat"@),
        '\u{266E}' => Some("\\natural"@),
        '\u{266F}' => Some("\\sharp"@),
        '\u{27E8}' => Some("\\ensuremath{\\langle}"@),
        '\u{27E9}' => Some("\\ensuremath{\\rangle}"@),
        '\u{27F5}' => Some("\\ensuremath{\\longleftarrow}"@),
        '\u{27F6}' => Some("\\ensuremath{\\longrightarrow}"@),
        '\u{27F7}' => Some("\\ensuremath{\\longleftrightarrow}"@),
        '\u{27F8}' => Some("\\ensuremath{\\Longleftarrow}"@),
        '\u{27F9}' => Some("\\ensuremath{\\Longrightarrow}"@),
        '\u{27FA}' => Some("\\ensuremath{\\Longleftrightarrow}"@),
        '\u{27FC}' => Some("\\ensuremath{\\longmapsto}"@),
        '\u{27FF}' => Some("\\ensuremath{\\sim\\joinrel\\leadsto}"@),
        '\u{2993}' => Some("\\ensuremath{<\\kern-0.58em(}"@),
        '\u{29EB}' => Some("\\ensuremath{\\blacklozenge}"@),
        '\u{2A0F}' => Some("\\ensuremath{\\clockoint}"@),
        '\u{2A16}' => Some("\\ensuremath{\\sqrint}"@),
        '\u{2A3F}' => Some("\\ensuremath{\\amalg}"@),
        '\u{2A6E}' => Some("\\ensuremath{\\stackrel{*}{=}}"@),
        '\u{2A75}' => Some("=="@),
        '\u{2A7D}' => Some("\\ensuremath{\\leqslant}"@),
        '\u{2A7E}' => Some("\\ensuremath{\\geqslant}"@),
        '\u{2A85}' => Some("\\ensuremath{\\lessapprox}"@),
        '\u{2A86}' => Some("\\ensuremath{\\gtrapprox}"@),
        '\u{2A87}' => Some("\\ensuremath{\\lneq}"@),
        '\u{2A88}' => Some("\\ensuremath{\\gneq}"@),
        _ => None,
    }
}

fn lookup_part_16(c: char) -> (r: Option<&'static str>)
    ensures
        r matches Some(t) ==> latex_part_16(c) == Some(t@),
        r is None ==> latex_part_16(c) is None,
{
    match c {
        '\u{2316}' => Some("\\ensuremath{\\mathchar\"2208}"),
        '\u{231C}' => Some("\\ensuremath{\\ulcorner}"),
        '\u{231D}' => Some("\\ensuremath{\\urcorner}"),
        '\u{231E}' => Some("\\ensuremath{\\llcorner}"),
        '\u{231F}' => Some("\\ensuremath{\\lrcorner}"),
        '\u{2322}' => Some("\\ensuremath{\\frown}"),
        '\u{2323}' => Some("\\ensuremath{\\smile}"),
        '\u{2329}' => Some("\\textlangle"),
        '\u{232A}' => Some("\\textrangle"),
        '\u{23B0}' => Some("\\ensuremath{\\lmoustache}"),
        '\u{23B1}' => Some("\\ensuremath{\\rmoustache}"),
        '\u{2422}' => Some("\\textblank"),
        '\u{2423}' => Some("\\textvisiblespace"),
        '\u{25A0}' => Some("\\ensuremath{\\blacksquare}"),
        '\u{25A1}' => Some("\\ensuremath{\\square}"),
        '\u{25AA}' => Some("{\\small\\ensuremath{\\blacksquare}}"),
        '\u{25AD}' => Some("\\fbox{~~}"),
        '\u{25B3}' => Some("\\ensuremath{\\bigtriangleup}"),
        '\u{25B4}' => Some("\\ensuremath{\\blacktriangle}"),
        '\u{25B5}' => Some("\\ensuremath{\\vartriangle}"),
        '\u{25B8}' => Some("\\ensuremath{\\blacktriangleright}"),
        '\u{25B9}' => Some("\\ensuremath{\\triangleright}"),
        '\u{25BD}' => Some("\\ensuremath{\\bigtriangledown}"),
        '\u{25BE}' => Some("\\ensuremath{\\blacktriangledown}"),
        '\u{25BF}' => Some("\\ensuremath{\\triangledown}"),
        '\u{25C2}' => Some("\\ensuremath{\\blacktriangleleft}"),
        '\u{25C3}' => Some("\\ensuremath{\\triangleleft}"),
        '\u{25CA}' => Some("\\ensuremath{\\lozenge}"),
        '\u{25CB}' => Some("\\ensuremath{\\bigcirc}"),
        '\u{25E6}' => Some("\\textopenbullet"),
        '\u{25EF}' => Some("\\textbigcircle"),
        '\u{2662}' => Some("\\ensuremath{\\diamond}"),
        '\u{2669}' => Some("\\quarternote"),
        '\u{266A}' => Some("\\textmusicalnote"),
        '\u{266D}' => Some("\\flat"),
        '\u{266E}' => Some("\\natural"),
        '\u{266F}' => Some("\\sharp"),
        '\u{27E8}' => Some("\\ensuremath{\\langle}"),
        '\u{27E9}' => Some("\\ensuremath{\\rangle}"),
        '\u{27F5}' => Some("\\ensuremath{\\longleftarrow}"),
        '\u{27F6}' => Some("\\ensuremath{\\longrightarrow}"),
        '\u{27F7}' => Some("\\ensuremath{\\longleftrightarrow}"),
        '\u{27F8}' => Some("\\ensuremath{\\Longleftarrow}"),
        '\u{27F9}' => Some("\\ensuremath{\\Longrightarrow}"),
        '\u{27FA}' => Some("\\ensuremath{\\Longleftrightarrow}"),
        '\u{27FC}' => Some("\\ensuremath{\\longmapsto}"),
        '\u{27FF}' => Some("\\ensuremath{\\sim\\joinrel\\leadsto}"),
        '\u{2993}' => Some("\\ensuremath{<\\kern-0.58em(}"),
        '\u{29EB}' => Some("\\ensuremath{\\blacklozenge}"),
        '\u{2A0F}' => Some("\\ensuremath{\\clockoint}"),
        '\u{2A16}' => Some("\\ensuremath{\\sqrint}"),
        '\u{2A3F}' => Some("\\ensuremath{\\amalg}"),
        '\u{2A6E}' => Some("\\ensuremath{\\stackrel{*}{=}}"),
        '\u{2A75}' => Some("=="),
        '\u{2A7D}' => Some("\\ensuremath{\\leqslant}"),
        '\u{2A7E}' => Some("\\ensuremath{\\geqslant}"),
        '\u{2A85}' => Some("\\ensuremath{\\lessapprox}"),
        '\u{2A86}' => Some("\\ensuremath{\\gtrapprox}"),
        '\u{2A87}' => Some("\\ensuremath{\\lneq}"),
        '\u{2A88}' => Some("\\ensuremath{\\gneq}"),
        _ => None,
    }
}

/// Part 17 of the transliteration table.
pub open spec fn latex_part_17(c: char) -> Option<Seq<char>> {
    match c {
        '\u{2A89}' => Some("\\ensuremath{\\lnapprox}"@),
        '\u{2A8A}' => Some("\\ensuremath{\\gnapprox}"@),
        '\u{2A8B}' => Some("\\ensuremath{\\lesseqqgtr}"@),
        '\u{2A8C}' => Some("\\ensuremath{\\gtreqqless}"@),
        '\u{2A95}' => Some("\\ensuremath{\\eqslantless}"@),
        '\u{2A96}' => Some("\\ensuremath{\\eqslantgtr}"@),
        '\u{2AAF}' => Some("\\ensuremath{\\preceq}"@),
        '\u{2AB0}' => Some("\\ensuremath{\\succeq}"@),
        '\u{2AB5}' => Some("\\ensuremath{\\precneqq}"@),
        '\u{2AB6}' => Some("\\ensuremath{\\succneqq}"@),
        '\u{2AB7}' => Some("\\ensuremath{\\precapprox}"@),
        '\u{2AB8}' => Some("\\ensuremath{\\succapprox}"@),
        '\u{2AB9}' => Some("\\ensuremath{\\precnapprox}"@),
        '\u{2ABA}' => Some("\\ensuremath{\\succnapprox}"@),
        '\u{2AC5}' => Some("\\ensuremath{\\subseteqq}"@),
        '\u{2AC6}' => Some("\\ensuremath{\\supseteqq}"@),
        '\u{2ACB}' => Some("\\ensuremath{\\subsetneqq}"@),
        '\u{2ACC}' => Some("\\ensuremath{\\supsetneqq}"@),
        '\u{2AFD}' => Some("\\ensuremath{{{/}\\!\\!{/}}}"@),
        '\u{3008}' => Some("\\ensuremath{\\langle}"@),
        '\u{3009}' => Some("\\ensuremath{\\rangle}"@),
        '\u{FB00}' => Some("ff"@),
        '\u{FB01}' => Some("fi"@),
        '\u{FB02}' => Some("fl"@),
        '\u{FB03}' => Some("ffi"@),
        '\u{FB04}' => Some("ffl"@),
        '\u{1D400}' => Some("\\ensuremath{\\mathbf{A}}"@),
        '\u{1D401}' => Some("\\ensuremath{\\mathbf{B}}"@),
        '\u{1D402}' => Some("\\ensuremath{\\mathbf{C}}"@),
        '\u{1D403}' => Some("\\ensuremath{\\mathbf{D}}"@),
        '\u{1D404}' => Some("\\ensuremath{\\mathbf{E}}"@),
        '\u{1D405}' => Some("\\ensuremath{\\mathbf{F}}"@),
        '\u{1D406}' => Some("\\ensuremath{\\mathbf{G}}"@),
        '\u{1D407}' => Some("\\ensuremath{\\mathbf{H}}"@),
        '\u{1D408}' => Some("\\ensuremath{\\mathbf{I}}"@),
        '\u{1D409}' => Some("\\ensuremath{\\mathbf{J}}"@),
        '\u{1D40A}' => Some("\\ensuremath{\\mathbf{K}}"@),
        '\u{1D40B}' => Some("\\ensuremath{\\mathbf{L}}"@),
        '\u{1D40C}' => Some("\\ensuremath{\\mathbf{M}}"@),
        '\u{1D40D}' => Some("\\ensuremath{\\mathbf{N}}"@),
        '\u{1D40E}' => Some("\\ensuremath{\\mathbf{O}}"@),
        '\u{1D40F}' => Some("\\ensuremath{\\mathbf{P}}"@),
        '\u{1D410}' => Some("\\ensuremath{\\mathbf{Q}}"@),
        '\u{1D411}' => Some("\\ensuremath{\\mathbf{R}}"@),
        '\u{1D412}' => Some("\\ensuremath{\\mathbf{S}}"@),
        '\u{1D413}' => Some("\\ensuremath{\\mathbf{T}}"@),
        '\u{1D414}' => Some("\\ensuremath{\\mathbf{U}}"@),
        '\u{1D415}' => Some("\\ensuremath{\\mathbf{V}}"@),
        '\u{1D416}' => Some("\\ensuremath{\\mathbf{W}}"@),
        '\u{1D417}' => Some("\\ensuremath{\\mathbf{X}}"@),
        '\u{1D418}' => Some("\\ensuremath{\\mathbf{Y}}"@),
        '\u{1D419}' => Some("\\ensuremath{\\mathbf{Z}}"@),
        '\u{1D41A}' => Some("\\ensuremath{\\mathbf{a}}"@),
        '\u{1D41B}' => Some("\\ensuremath{\\mathbf{b}}"@),
        '\u{1D41C}' => Some("\\ensuremath{\\mathbf{c}}"@),
        '\u{1D41D}' => Some("\\ensuremath{\\mathbf{d}}"@),
        '\u{1D41E}' => Some("\\ensuremath{\\mathbf{e}}"@),
        '\u{1D41F}' => Some("\\ensuremath{\\mathbf{f}}"@),
        '\u{1D420}' => Some("\\ensuremath{\\mathbf{g}}"@),
        '\u{1D421}' => Some("\\ensuremath{\\mathbf{h}}"@),
        _ => None,
    }
}

fn lookup_part_17(c: char) -> (r: Option<&'static str>)
    ensures
        r matches Some(t) ==> latex_part_17(c) == Some(t@),
        r is None ==> latex_part_17(c) is None,
{
    match c {
        '\u{2A89}' => Some("\\ensuremath{\\lnapprox}"),
        '\u{2A8A}' => Some("\\ensuremath{\\gnapprox}"),
        '\u{2A8B}' => Some("\\ensuremath{\\lesseqqgtr}"),
        '\u{2A8C}' => Some("\\ensuremath{\\gtreqqless}"),
        '\u{2A95}' => Some("\\ensuremath{\\eqslantless}"),
        '\u{2A96}' => Some("\\ensuremath{\\eqslantgtr}"),
        '\u{2AAF}' => Some("\\ensuremath{\\preceq}"),
        '\u{2AB0}' => Some("\\ensuremath{\\succeq}"),
        '\u{2AB5}' => Some("\\ensuremath{\\precneqq}"),
        '\u{2AB6}' => Some("\\ensuremath{\\succneqq}"),
        '\u{2AB7}' => Some("\\ensuremath{\\precapprox}"),
        '\u{2AB8}' => Some("\\ensuremath{\\succapprox}"),
        '\u{2AB9}' => Some("\\ensuremath{\\precnapprox}"),
        '\u{2ABA}' => Some("\\ensuremath{\\succnapprox}"),
        '\u{2AC5}' => Some("\\ensuremath{\\subseteqq}"),
        '\u{2AC6}' => Some("\\ensuremath{\\supseteqq}"),
        '\u{2ACB}' => Some("\\ensuremath{\\subsetneqq}"),
        '\u{2ACC}' => Some("\\ensuremath{\\supsetneqq}"),
        '\u{2AFD}' => Some("\\ensuremath{{{/}\\!\\!{/}}}"),
        '\u{3008}' => Some("\\ensuremath{\\langle}"),
        '\u{3009}' => Some("\\ensuremath{\\rangle}"),
        '\u{FB00}' => Some("ff"),
        '\u{FB01}' => Some("fi"),
        '\u{FB02}' => Some("fl"),
        '\u{FB03}' => Some("ffi"),
        '\u{FB04}' => Some("ffl"),
        '\u{1D400}' => Some("\\ensuremath{\\mathbf{A}}"),
        '\u{1D401}' => Some("\\ensuremath{\\mathbf{B}}"),
        '\u{1D402}' => Some("\\ensuremath{\\mathbf{C}}"),
        '\u{1D403}' => Some("\\ensuremath{\\mathbf{D}}"),
        '\u{1D404}' => Some("\\ensuremath{\\mathbf{E}}"),
        '\u{1D405}' => Some("\\ensuremath{\\mathbf{F}}"),
        '\u{1D406}' => Some("\\ensuremath{\\mathbf{G}}"),
        '\u{1D407}' => Some("\\ensuremath{\\mathbf{H}}"),
        '\u{1D408}' => Some("\\ensuremath{\\mathbf{I}}"),
        '\u{1D409}' => Some("\\ensuremath{\\mathbf{J}}"),
        '\u{1D40A}' => Some("\\ensuremath{\\mathbf{K}}"),
        '\u{1D40B}' => Some("\\ensuremath{\\mathbf{L}}"),
        '\u{1D40C}' => Some("\\ensuremath{\\mathbf{M}}"),
        '\u{1D40D}' => Some("\\ensuremath{\\mathbf{N}}"),
        '\u{1D40E}' => Some("\\ensuremath{\\mathbf{O}}"),
        '\u{1D40F}' => Some("\\ensuremath{\\mathbf{P}}"),
        '\u{1D410}' => Some("\\ensuremath{\\mathbf{Q}}"),
        '\u{1D411}' => Some("\\ensuremath{\\mathbf{R}}"),
        '\u{1D412}' => Some("\\ensuremath{\\mathbf{S}}"),
        '\u{1D413}' => Some("\\ensuremath{\\mathbf{T}}"),
        '\u{1D414}' => Some("\\ensuremath{\\mathbf{U}}"),
        '\u{1D415}' => Some("\\ensuremath{\\mathbf{V}}"),
        '\u{1D416}' => Some("\\ensuremath{\\mathbf{W}}"),
        '\u{1D417}' => Some("\\ensuremath{\\mathbf{X}}"),
        '\u{1D418}' => Some("\\ensuremath{\\mathbf{Y}}"),
        '\u{1D419}' => Some("\\ensuremath{\\mathbf{Z}}"),
        '\u{1D41A}' => Some("\\ensuremath{\\mathbf{a}}"),
        '\u{1D41B}' => Some("\\ensuremath{\\mathbf{b}}"),
        '\u{1D41C}' => Some("\\ensuremath{\\mathbf{c}}"),
        '\u{1D41D}' => Some("\\ensuremath{\\mathbf{d}}"),
        '\u{1D41E}' => Some("\\ensuremath{\\mathbf{e}}"),
        '\u{1D41F}' => Some("\\ensuremath{\\mathbf{f}}"),
        '\u{1D420}' => Some("\\ensuremath{\\mathbf{g}}"),
        '\u{1D421}' => Some("\\ensuremath{\\mathbf{h}}"),
        _ => None,
    }
}

/// Part 18 of the transliteration table.
pub open spec fn latex_part_18(c: char) -> Option<Seq<char>> {
    match c {
        '\u{1D422}' => Some("\\ensuremath{\\mathbf{i}}"@),
        '\u{1D423}' => Some("\\ensuremath{\\mathbf{j}}"@),
        '\u{1D424}' => Some("\\ensuremath{\\mathbf{k}}"@),
        '\u{1D425}' => Some("\\ensuremath{\\mathbf{l}}"@),
        '\u{1D426}' => Some("\\ensuremath{\\mathbf{m}}"@),
        '\u{1D427}' => Some("\\ensuremath{\\mathbf{n}}"@),
        '\u{1D428}' => Some("\\ensuremath{\\mathbf{o}}"@),
        '\u{1D429}' => Some("\\ensuremath{\\mathbf{p}}"@),
        '\u{1D42A}' => Some("\\ensuremath{\\mathbf{q}}"@),
        '\u{1D42B}' => Some("\\ensuremath{\\mathbf{r}}"@),
        '\u{1D42C}' => Some("\\ensuremath{\\mathbf{s}}"@),
        '\u{1D42D}' => Some("\\ensuremath{\\mathbf{t}}"@),
        '\u{1D42E}' => Some("\\ensuremath{\\mathbf{u}}"@),
        '\u{1D42F}' => Some("\\ensuremath{\\mathbf{v}}"@),
        '\u{1D430}' => Some("\\ensuremath{\\mathbf{w}}"@),
        '\u{1D431}' => Some("\\ensuremath{\\mathbf{x}}"@),
        '\u{1D432}' => Some("\\ensuremath{\\mathbf{y}}"@),
        '\u{1D433}' => Some("\\ensuremath{\\mathbf{z}}"@),
        '\u{1D434}' => Some("\\ensuremath{\\mathit{A}}"@),
        '\u{1D435}' => Some("\\ensuremath{\\mathit{B}}"@),
        '\u{1D436}' => Some("\\ensuremath{\\mathit{C}}"@),
        '\u{1D437}' => Some("\\ensuremath{\\mathit{D}}"@),
        '\u{1D438}' => Some("\\ensuremath{\\mathit{E}}"@),
        '\u{1D439}' => Some("\\ensuremath{\\mathit{F}}"@),
        '\u{1D43A}' => Some("\\ensuremath{\\mathit{G}}"@),
        '\u{1D43B}' => Some("\\ensuremath{\\mathit{H}}"@),
        '\u{1D43C}' => Some("\\ensuremath{\\mathit{I}}"@),
        '\u{1D43D}' => Some("\\ensuremath{\\mathit{J}}"@),
        '\u{1D43E}' => Some("\\ensuremath{\\mathit{K}}"@),
        '\u{1D43F}' => Some("\\ensuremath{\\mathit{L}}"@),
        '\u{1D440}' => Some("\\ensuremath{\\mathit{M}}"@),
        '\u{1D441}' => Some("\\ensuremath{\\mathit{N}}"@),
        '\u{1D442}' => Some("\\ensuremath{\\mathit{O}}"@),
        '\u{1D443}' => Some("\\ensuremath{\\mathit{P}}"@),
        '\u{1D444}' => Some("\\ensuremath{\\mathit{Q}}"@),
        '\u{1D445}' => Some("\\ensuremath{\\mathit{R}}"@),
        '\u{1D446}' => Some("\\ensuremath{\\mathit{S}}"@),
        '\u{1D447}' => Some("\\ensuremath{\\mathit{T}}"@),
        '\u{1D448}' => Some("\\ensuremath{\\mathit{U}}"@),
        '\u{1D449}' => Some("\\ensuremath{\\mathit{V}}"@),
        '\u{1D44A}' => Some("\\ensuremath{\\mathit{W}}"@),
        '\u{1D44B}' => Some("\\ensuremath{\\mathit{X}}"@),
        '\u{1D44C}' => Some("\\ensuremath{\\mathit{Y}}"@),
        '\u{1D44D}' => Some("\\ensuremath{\\mathit{Z}}"@),
        '\u{1D44E}' => Some("\\ensuremath{\\mathit{a}}"@),
        '\u{1D44F}' => Some("\\ensuremath{\\mathit{b}}"@),
        '\u{1D450}' => Some("\\ensuremath{\\mathit{c}}"@),
        '\u{1D451}' => Some("\\ensuremath{\\mathit{d}}"@),
        '\u{1D452}' => Some("\\ensuremath{\\mathit{e}}"@),
        '\u{1D453}' => Some("\\ensuremath{\\mathit{f}}"@),
        '\u{1D454}' => Some("\\ensuremath{\\mathit{g}}"@),
        '\u{1D455}' => Some("\\ensuremath{\\mathit{h}}"@),
        '\u{1D456}' => Some("\\ensuremath{\\mathit{i}}"@),
        '\u{1D457}' => Some("\\ensuremath{\\mathit{j}}"@),
        '\u{1D458}' => Some("\\ensuremath{\\mathit{k}}"@),
        '\u{1D459}' => Some("\\ensuremath{\\mathit{l}}"@),
        '\u{1D45A}' => Some("\\ensuremath{\\mathit{m}}"@),
        '\u{1D45B}' => Some("\\ensuremath{\\mathit{n}}"@),
        '\u{1D45C}' => Some("\\ensuremath{\\mathit{o}}"@),
        '\u{1D45D}' => Some("\\ensuremath{\\mathit{p}}"@),
        _ => None,
    }
}

fn lookup_part_18(c: char) -> (r: Option<&'static str>)
    ensures
        r matches Some(t) ==> latex_part_18(c) == Some(t@),
        r is None ==> latex_part_18(c) is None,
{
    match c {
        '\u{1D422}' => Some("\\ensuremath{\\mathbf{i}}"),
        '\u{1D423}' => Some("\\ensuremath{\\mathbf{j}}"),
        '\u{1D424}' => Some("\\ensuremath{\\mathbf{k}}"),
        '\u{1D425}' => Some("\\ensuremath{\\mathbf{l}}"),
        '\u{1D426}' => Some("\\ensuremath{\\mathbf{m}}"),
        '\u{1D427}' => Some("\\ensuremath{\\mathbf{n}}"),
        '\u{1D428}' => Some("\\ensuremath{\\mathbf{o}}"),
        '\u{1D429}' => Some("\\ensuremath{\\mathbf{p}}"),
        '\u{1D42A}' => Some("\\ensuremath{\\mathbf{q}}"),
        '\u{1D42B}' => Some("\\ensuremath{\\mathbf{r}}"),
        '\u{1D42C}' => Some("\\ensuremath{\\mathbf{s}}"),
        '\u{1D42D}' => Some("\\ensuremath{\\mathbf{t}}"),
        '\u{1D42E}' => Some("\\ensuremath{\\mathbf{u}}"),
        '\u{1D42F}' => Some("\\ensuremath{\\mathbf{v}}"),
        '\u{1D430}' => Some("\\ensuremath{\\mathbf{w}}"),
        '\u{1D431}' => Some("\\ensuremath{\\mathbf{x}}"),
        '\u{1D432}' => Some("\\ensuremath{\\mathbf{y}}"),
        '\u{1D433}' => Some("\\ensuremath{\\mathbf{z}}"),
        '\u{1D434}' => Some("\\ensuremath{\\mathit{A}}"),
        '\u{1D435}' => Some("\\ensuremath{\\mathit{B}}"),
        '\u{1D436}' => Some("\\ensuremath{\\mathit{C}}"),
        '\u{1D437}' => Some("\\ensuremath{\\mathit{D}}"),
        '\u{1D438}' => Some("\\ensuremath{\\mathit{E}}"),
        '\u{1D439}' => Some("\\ensuremath{\\mathit{F}}"),
        '\u{1D43A}' => Some("\\ensuremath{\\mathit{G}}"),
        '\u{1D43B}' => Some("\\ensuremath{\\mathit{H}}"),
        '\u{1D43C}' => Some("\\ensuremath{\\mathit{I}}"),
        '\u{1D43D}' => Some("\\ensuremath{\\mathit{J}}"),
        '\u{1D43E}' => Some("\\ensuremath{\\mathit{K}}"),
        '\u{1D43F}' => Some("\\ensuremath{\\mathit{L}}"),
        '\u{1D440}' => Some("\\ensuremath{\\mathit{M}}"),
        '\u{1D441}' => Some("\\ensuremath{\\mathit{N}}"),
        '\u{1D442}' => Some("\\ensuremath{\\mathit{O}}"),
        '\u{1D443}' => Some("\\ensuremath{\\mathit{P}}"),
        '\u{1D444}' => Some("\\ensuremath{\\mathit{Q}}"),
        '\u{1D445}' => Some("\\ensuremath{\\mathit{R}}"),
        '\u{1D446}' => Some("\\ensuremath{\\mathit{S}}"),
        '\u{1D447}' => Some("\\ensuremath{\\mathit{T}}"),
        '\u{1D448}' => Some("\\ensuremath{\\mathit{U}}"),
        '\u{1D449}' => Some("\\ensuremath{\\mathit{V}}"),
        '\u{1D44A}' => Some("\\ensuremath{\\mathit{W}}"),
        '\u{1D44B}' => Some("\\ensuremath{\\mathit{X}}"),
        '\u{1D44C}' => Some("\\ensuremath{\\mathit{Y}}"),
        '\u{1D44D}' => Some("\\ensuremath{\\mathit{Z}}"),
        '\u{1D44E}' => Some("\\ensuremath{\\mathit{a}}"),
        '\u{1D44F}' => Some("\\ensuremath{\\mathit{b}}"),
        '\u{1D450}' => Some("\\ensuremath{\\mathit{c}}"),
        '\u{1D451}' => Some("\\ensuremath{\\mathit{d}}"),
        '\u{1D452}' => Some("\\ensuremath{\\mathit{e}}"),
        '\u{1D453}' => Some("\\ensuremath{\\mathit{f}}"),
        '\u{1D454}' => Some("\\ensuremath{\\mathit{g}}"),
        '\u{1D455}' => Some("\\ensuremath{\\mathit{h}}"),
        '\u{1D456}' => Some("\\ensuremath{\\mathit{i}}"),
        '\u{1D457}' => Some("\\ensuremath{\\mathit{j}}"),
        '\u{1D458}' => Some("\\ensuremath{\\mathit{k}}"),
        '\u{1D459}' => Some("\\ensuremath{\\mathit{l}}"),
        '\u{1D45A}' => Some("\\ensuremath{\\mathit{m}}"),
        '\u{1D45B}' => Some("\\ensuremath{\\mathit{n}}"),
        '\u{1D45C}' => Some("\\ensuremath{\\mathit{o}}"),
        '\u{1D45D}' => Some("\\ensuremath{\\mathit{p}}"),
        _ => None,
    }
}

/// Part 19 of the transliteration table.
pub open spec fn latex_part_19(c: char) -> Option<Seq<char>> {
    match c {
        '\u{1D45E}' => Some("\\ensuremath{\\mathit{q}}"@),
        '\u{1D45F}' => Some("\\ensuremath{\\mathit{r}}"@),
        '\u{1D460}' => Some("\\ensuremath{\\mathit{s}}"@),
        '\u{1D461}' => Some("\\ensuremath{\\mathit{t}}"@),
        '\u{1D462}' => Some("\\ensuremath{\\mathit{u}}"@),
        '\u{1D463}' => Some("\\ensuremath{\\mathit{v}}"@),
        '\u{1D464}' => Some("\\ensuremath{\\mathit{w}}"@),
        '\u{1D465}' => Some("\\ensuremath{\\mathit{x}}"@),
        '\u{1D466}' => Some("\\ensuremath{\\mathit{y}}"@),
        '\u{1D467}' => Some("\\ensuremath{\\mathit{z}}"@),
        '\u{1D468}' => Some("\\ensuremath{\\boldsymbol{\\mathit{A}}}"@),
        '\u{1D469}' => Some("\\ensuremath{\\boldsymbol{\\mathit{B}}}"@),
        '\u{1D46A}' => Some("\\ensuremath{\\boldsymbol{\\mathit{C}}}"@),
        '\u{1D46B}' => Some("\\ensuremath{\\boldsymbol{\\mathit{D}}}"@),
        '\u{1D46C}' => Some("\\ensuremath{\\boldsymbol{\\mathit{E}}}"@),
        '\u{1D46D}' => Some("\\ensuremath{\\boldsymbol{\\mathit{F}}}"@),
        '\u{1D46E}' => Some("\\ensuremath{\\boldsymbol{\\mathit{G}}}"@),
        '\u{1D46F}' => Some("\\ensuremath{\\boldsymbol{\\mathit{H}}}"@),
        '\u{1D470}' => Some("\\ensuremath{\\boldsymbol{\\mathit{I}}}"@),
        '\u{1D471}' => Some("\\ensuremath{\\boldsymbol{\\mathit{J}}}"@),
        '\u{1D472}' => Some("\\ensuremath{\\boldsymbol{\\mathit{K}}}"@),
        '\u{1D473}' => Some("\\ensuremath{\\boldsymbol{\\mathit{L}}}"@),
        '\u{1D474}' => Some("\\ensuremath{\\boldsymbol{\\mathit{M}}}"@),
        '\u{1D475}' => Some("\\ensuremath{\\boldsymbol{\\mathit{N}}}"@),
        '\u{1D476}' => Some("\\ensuremath{\\boldsymbol{\\mathit{O}}}"@),
        '\u{1D477}' => Some("\\ensuremath{\\boldsymbol{\\mathit{P}}}"@),
        '\u{1D478}' => Some("\\ensuremath{\\boldsymbol{\\mathit{Q}}}"@),
        '\u{1D479}' => Some("\\ensuremath{\\boldsymbol{\\mathit{R}}}"@),
        '\u{1D47A}' => Some("\\ensuremath{\\boldsymbol{\\mathit{S}}}"@),
        '\u{1D47B}' => Some("\\ensuremath{\\boldsymbol{\\mathit{T}}}"@),
        '\u{1D47C}' => Some("\\ensuremath{\\boldsymbol{\\mathit{U}}}"@),
        '\u{1D47D}' => Some("\\ensuremath{\\boldsymbol{\\mathit{V}}}"@),
        '\u{1D47E}' => Some("\\ensuremath{\\boldsymbol{\\mathit{W}}}"@),
        '\u{1D47F}' => Some("\\ensuremath{\\boldsymbol{\\mathit{X}}}"@),
        '\u{1D480}' => Some("\\ensuremath{\\boldsymbol{\\mathit{Y}}}"@),
        '\u{1D481}' => Some("\\ensuremath{\\boldsymbol{\\mathit{Z}}}"@),
        '\u{1D482}' => Some("\\ensuremath{\\boldsymbol{\\mathit{a}}}"@),
        '\u{1D483}' => Some("\\ensuremath{\\boldsymbol{\\mathit{b}}}"@),
        '\u{1D484}' => Some("\\ensuremath{\\boldsymbol{\\mathit{c}}}"@),
        '\u{1D485}' => Some("\\ensuremath{\\boldsymbol{\\mathit{d}}}"@),
        '\u{1D486}' => Some("\\ensuremath{\\boldsymbol{\\mathit{e}}}"@),
        '\u{1D487}' => Some("\\ensuremath{\\boldsymbol{\\mathit{f}}}"@),
        '\u{1D488}' => Some("\\ensuremath{\\boldsymbol{\\mathit{g}}}"@),
        '\u{1D489}' => Some("\\ensuremath{\\boldsymbol{\\mathit{h}}}"@),
        '\u{1D48A}' => Some("\\ensuremath{\\boldsymbol{\\mathit{i}}}"@),
        '\u{1D48B}' => Some("\\ensuremath{\\boldsymbol{\\mathit{j}}}"@),
        '\u{1D48C}' => Some("\\ensuremath{\\boldsymbol{\\mathit{k}}}"@),
        '\u{1D48D}' => Some("\\ensuremath{\\boldsymbol{\\mathit{l}}}"@),
        '\u{1D48E}' => Some("\\ensuremath{\\boldsymbol{\\mathit{m}}}"@),
        '\u{1D48F}' => Some("\\ensuremath{\\boldsymbol{\\mathit{n}}}"@),
        '\u{1D490}' => Some("\\ensuremath{\\boldsymbol{\\mathit{o}}}"@),
        '\u{1D491}' => Some("\\ensuremath{\\boldsymbol{\\mathit{p}}}"@),
        '\u{1D492}' => Some("\\ensuremath{\\boldsymbol{\\mathit{q}}}"@),
        '\u{1D493}' => Some("\\ensuremath{\\boldsymbol{\\mathit{r}}}"@),
        '\u{1D494}' => Some("\\ensuremath{\\boldsymbol{\\mathit{s}}}"@),
        '\u{1D495}' => Some("\\ensuremath{\\boldsymbol{\\mathit{t}}}"@),
        '\u{1D496}' => Some("\\ensuremath{\\boldsymbol{\\mathit{u}}}"@),
        '\u{1D497}' => Some("\\ensuremath{\\boldsymbol{\\mathit{v}}}"@),
        '\u{1D498}' => Some("\\ensuremath{\\boldsymbol{\\mathit{w}}}"@),
        '\u{1D499}' => Some("\\ensuremath{\\boldsymbol{\\mathit{x}}}"@),
        _ => None,
    }
}

fn lookup_part_19(c: char) -> (r: Option<&'static str>)
    ensures
        r matches Some(t) ==> latex_part_19(c) == Some(t@),
        r is None ==> latex_part_19(c) is None,
{
    match c {
        '\u{1D45E}' => Some("\\ensuremath{\\mathit{q}}"),
        '\u{1D45F}' => Some("\\ensuremath{\\mathit{r}}"),
        '\u{1D460}' => Some("\\ensuremath{\\mathit{s}}"),
        '\u{1D461}' => Some("\\ensuremath{\\mathit{t}}"),
        '\u{1D462}' => Some("\\ensuremath{\\mathit{u}}"),
        '\u{1D463}' => Some("\\ensuremath{\\mathit{v}}"),
        '\u{1D464}' => Some("\\ensuremath{\\mathit{w}}"),
        '\u{1D465}' => Some("\\ensuremath{\\mathit{x}}"),
        '\u{1D466}' => Some("\\ensuremath{\\mathit{y}}"),
        '\u{1D467}' => Some("\\ensuremath{\\mathit{z}}"),
        '\u{1D468}' => Some("\\ensuremath{\\boldsymbol{\\mathit{A}}}"),
        '\u{1D469}' => Some("\\ensuremath{\\boldsymbol{\\mathit{B}}}"),
        '\u{1D46A}' => Some("\\ensuremath{\\boldsymbol{\\mathit{C}}}"),
        '\u{1D46B}' => Some("\\ensuremath{\\boldsymbol{\\mathit{D}}}"),
        '\u{1D46C}' => Some("\\ensuremath{\\boldsymbol{\\mathit{E}}}"),
        '\u{1D46D}' => Some("\\ensuremath{\\boldsymbol{\\mathit{F}}}"),
        '\u{1D46E}' => Some("\\ensuremath{\\boldsymbol{\\mathit{G}}}"),
        '\u{1D46F}' => Some("\\ensuremath{\\boldsymbol{\\mathit{H}}}"),
        '\u{1D470}' => Some("\\ensuremath{\\boldsymbol{\\mathit{I}}}"),
        '\u{1D471}' => Some("\\ensuremath{\\boldsymbol{\\mathit{J}}}"),
        '\u{1D472}' => Some("\\ensuremath{\\boldsymbol{\\mathit{K}}}"),
        '\u{1D473}' => Some("\\ensuremath{\\boldsymbol{\\mathit{L}}}"),
        '\u{1D474}' => Some("\\ensuremath{\\boldsymbol{\\mathit{M}}}"),
        '\u{1D475}' => Some("\\ensuremath{\\boldsymbol{\\mathit{N}}}"),
        '\u{1D476}' => Some("\\ensuremath{\\boldsymbol{\\mathit{O}}}"),
        '\u{1D477}' => Some("\\ensuremath{\\boldsymbol{\\mathit{P}}}"),
        '\u{1D478}' => Some("\\ensuremath{\\boldsymbol{\\mathit{Q}}}"),
        '\u{1D479}' => Some("\\ensuremath{\\boldsymbol{\\mathit{R}}}"),
        '\u{1D47A}' => Some("\\ensuremath{\\boldsymbol{\\mathit{S}}}"),
        '\u{1D47B}' => Some("\\ensuremath{\\boldsymbol{\\mathit{T}}}"),
        '\u{1D47C}' => Some("\\ensuremath{\\boldsymbol{\\mathit{U}}}"),
        '\u{1D47D}' => Some("\\ensuremath{\\boldsymbol{\\mathit{V}}}"),
        '\u{1D47E}' => Some("\\ensuremath{\\boldsymbol{\\mathit{W}}}"),
        '\u{1D47F}' => Some("\\ensuremath{\\boldsymbol{\\mathit{X}}}"),
        '\u{1D480}' => Some("\\ensuremath{\\boldsymbol{\\mathit{Y}}}"),
        '\u{1D481}' => Some("\\ensuremath{\\boldsymbol{\\mathit{Z}}}"),
        '\u{1D482}' => Some("\\ensuremath{\\boldsymbol{\\mathit{a}}}"),
        '\u{1D483}' => Some("\\ensuremath{\\boldsymbol{\\mathit{b}}}"),
        '\u{1D484}' => Some("\\ensuremath{\\boldsymbol{\\mathit{c}}}"),
        '\u{1D485}' => Some("\\ensuremath{\\boldsymbol{\\mathit{d}}}"),
        '\u{1D486}' => Some("\\ensuremath{\\boldsymbol{\\mathit{e}}}"),
        '\u{1D487}' => Some("\\ensuremath{\\boldsymbol{\\mathit{f}}}"),
        '\u{1D488}' => Some("\\ensuremath{\\boldsymbol{\\mathit{g}}}"),
        '\u{1D489}' => Some("\\ensuremath{\\boldsymbol{\\mathit{h}}}"),
        '\u{1D48A}' => Some("\\ensuremath{\\boldsymbol{\\mathit{i}}}"),
        '\u{1D48B}' => Some("\\ensuremath{\\boldsymbol{\\mathit{j}}}"),
        '\u{1D48C}' => Some("\\ensuremath{\\boldsymbol{\\mathit{k}}}"),
        '\u{1D48D}' => Some("\\ensuremath{\\boldsymbol{\\mathit{l}}}"),
        '\u{1D48E}' => Some("\\ensuremath{\\boldsymbol{\\mathit{m}}}"),
        '\u{1D48F}' => Some("\\ensuremath{\\boldsymbol{\\mathit{n}}}"),
        '\u{1D490}' => Some("\\ensuremath{\\boldsymbol{\\mathit{o}}}"),
        '\u{1D491}' => Some("\\ensuremath{\\boldsymbol{\\mathit{p}}}"),
        '\u{1D492}' => Some("\\ensuremath{\\boldsymbol{\\mathit{q}}}"),
        '\u{1D493}' => Some("\\ensuremath{\\boldsymbol{\\mathit{r}}}"),
        '\u{1D494}' => Some("\\ensuremath{\\boldsymbol{\\mathit{s}}}"),
        '\u{1D495}' => Some("\\ensuremath{\\boldsymbol{\\mathit{t}}}"),
        '\u{1D496}' => Some("\\ensuremath{\\boldsymbol{\\mathit{u}}}"),
        '\u{1D497}' => Some("\\ensuremath{\\boldsymbol{\\mathit{v}}}"),
        '\u{1D498}' => Some("\\ensuremath{\\boldsymbol{\\mathit{w}}}"),
        '\u{1D499}' => Some("\\ensuremath{\\boldsymbol{\\mathit{x}}}"),
        _ => None,
    }
}

/// Part 20 of the transliteration table.
pub open spec fn latex_part_20(c: char) -> Option<Seq<char>> {
    match c {
        '\u{1D49A}' => Some("\\ensuremath{\\boldsymbol{\\mathit{y}}}"@),
        '\u{1D49B}' => Some("\\ensuremath{\\boldsymbol{\\mathit{z}}}"@),
        '\u{1D49C}' => Some("\\ensuremath{\\mathscr{A}}"@),
        '\u{1D49D}' => Some("\\ensuremath{\\mathscr{B}}"@),
        '\u{1D49E}' => Some("\\ensuremath{\\mathscr{C}}"@),
        '\u{1D49F}' => Some("\\ensuremath{\\mathscr{D}}"@),
        '\u{1D4A0}' => Some("\\ensuremath{\\mathscr{E}}"@),
        '\u{1D4A1}' => Some("\\ensuremath{\\mathscr{F}}"@),
        '\u{1D4A2}' => Some("\\ensuremath{\\mathscr{G}}"@),
        '\u{1D4A3}' => Some("\\ensuremath{\\mathscr{H}}"@),
        '\u{1D4A4}' => Some("\\ensuremath{\\mathscr{I}}"@),
        '\u{1D4A5}' => Some("\\ensuremath{\\mathscr{J}}"@),
        '\u{1D4A6}' => Some("\\ensuremath{\\mathscr{K}}"@),
        '\u{1D4A7}' => Some("\\ensuremath{\\mathscr{L}}"@),
        '\u{1D4A8}' => Some("\\ensuremath{\\mathscr{M}}"@),
        '\u{1D4A9}' => Some("\\ensuremath{\\mathscr{N}}"@),
        '\u{1D4AA}' => Some("\\ensuremath{\\mathscr{O}}"@),
        '\u{1D4AB}' => Some("\\ensuremath{\\mathscr{P}}"@),
        '\u{1D4AC}' => Some("\\ensuremath{\\mathscr{Q}}"@),
        '\u{1D4AD}' => Some("\\ensuremath{\\mathscr{R}}"@),
        '\u{1D4AE}' => Some("\\ensuremath{\\mathscr{S}}"@),
        '\u{1D4AF}' => Some("\\ensuremath{\\mathscr{T}}"@),
        '\u{1D4B0}' => Some("\\ensuremath{\\mathscr{U}}"@),
        '\u{1D4B1}' => Some("\\ensuremath{\\mathscr{V}}"@),
        '\u{1D4B2}' => Some("\\ensuremath{\\mathscr{W}}"@),
        '\u{1D4B3}' => Some("\\ensuremath{\\mathscr{X}}"@),
        '\u{1D4B4}' => Some("\\ensuremath{\\mathscr{Y}}"@),
        '\u{1D4B5}' => Some("\\ensuremath{\\mathscr{Z}}"@),
        '\u{1D4B6}' => Some("\\ensuremath{\\mathscr{a}}"@),
        '\u{1D4B7}' => Some("\\ensuremath{\\mathscr{b}}"@),
        '\u{1D4B8}' => Some("\\ensuremath{\\mathscr{c}}"@),
        '\u{1D4B9}' => Some("\\ensuremath{\\mathscr{d}}"@),
        '\u{1D4BB}' => Some("\\ensuremath{\\mathscr{f}}"@),
        '\u{1D4BD}' => Some("\\ensuremath{\\mathscr{h}}"@),
        '\u{1D4BE}' => Some("\\ensuremath{\\mathscr{i}}"@),
        '\u{1D4BF}' => Some("\\ensuremath{\\mathscr{j}}"@),
        '\u{1D4C0}' => Some("\\ensuremath{\\mathscr{k}}"@),
        '\u{1D4C1}' => Some("\\ensuremath{\\mathscr{l}}"@),
        '\u{1D4C2}' => Some("\\ensuremath{\\mathscr{m}}"@),
        '\u{1D4C3}' => Some("\\ensuremath{\\mathscr{n}}"@),
        '\u{1D4C5}' => Some("\\ensuremath{\\mathscr{p}}"@),
        '\u{1D4C6}' => Some("\\ensuremath{\\mathscr{q}}"@),
        '\u{1D4C7}' => Some("\\ensuremath{\\mathscr{r}}"@),
        '\u{1D4C8}' => Some("\\ensuremath{\\mathscr{s}}"@),
        '\u{1D4C9}' => Some("\\ensuremath{\\mathscr{t}}"@),
        '\u{1D4CA}' => Some("\\ensuremath{\\mathscr{u}}"@),
        '\u{1D4CB}' => Some("\\ensuremath{\\mathscr{v}}"@),
        '\u{1D4CC}' => Some("\\ensuremath{\\mathscr{w}}"@),
        '\u{1D4CD}' => Some("\\ensuremath{\\mathscr{x}}"@),
        '\u{1D4CE}' => Some("\\ensuremath{\\mathscr{y}}"@),
        '\u{1D4CF}' => Some("\\ensuremath{\\mathscr{z}}"@),
        '\u{1D504}' => Some("\\ensuremath{\\mathfrak{A}}"@),
        '\u{1D505}' => Some("\\ensuremath{\\mathfrak{B}}"@),
        '\u{1D506}' => Some("\\ensuremath{\\mathfrak{C}}"@),
        '\u{1D507}' => Some("\\ensuremath{\\mathfrak{D}}"@),
        '\u{1D508}' => Some("\\ensuremath{\\mathfrak{E}}"@),
        '\u{1D509}' => Some("\\ensuremath{\\mathfrak{F}}"@),
        '\u{1D50A}' => Some("\\ensuremath{\\mathfrak{G}}"@),
        '\u{1D50B}' => Some("\\ensuremath{\\mathfrak{H}}"@),
        '\u{1D50C}' => Some("\\ensuremath{\\mathfrak{I}}"@),
        _ => None,
    }
}

fn lookup_part_20(c: char) -> (r: Option<&'static str>)
    ensures
        r matches Some(t) ==> latex_part_20(c) == Some(t@),
        r is None ==> latex_part_20(c) is None,
{
    match c {
        '\u{1D49A}' => Some("\\ensuremath{\\boldsymbol{\\mathit{y}}}"),
        '\u{1D49B}' => Some("\\ensuremath{\\boldsymbol{\\mathit{z}}}"),
        '\u{1D49C}' => Some("\\ensuremath{\\mathscr{A}}"),
        '\u{1D49D}' => Some("\\ensuremath{\\mathscr{B}}"),
        '\u{1D49E}' => Some("\\ensuremath{\\mathscr{C}}"),
        '\u{1D49F}' => Some("\\ensuremath{\\mathscr{D}}"),
        '\u{1D4A0}' => Some("\\ensuremath{\\mathscr{E}}"),
        '\u{1D4A1}' => Some("\\ensuremath{\\mathscr{F}}"),
        '\u{1D4A2}' => Some("\\ensuremath{\\mathscr{G}}"),
        '\u{1D4A3}' => Some("\\ensuremath{\\mathscr{H}}"),
        '\u{1D4A4}' => Some("\\ensuremath{\\mathscr{I}}"),
        '\u{1D4A5}' => Some("\\ensuremath{\\mathscr{J}}"),
        '\u{1D4A6}' => Some("\\ensuremath{\\mathscr{K}}"),
        '\u{1D4A7}' => Some("\\ensuremath{\\mathscr{L}}"),
        '\u{1D4A8}' => Some("\\ensuremath{\\mathscr{M}}"),
        '\u{1D4A9}' => Some("\\ensuremath{\\mathscr{N}}"),
        '\u{1D4AA}' => Some("\\ensuremath{\\mathscr{O}}"),
        '\u{1D4AB}' => Some("\\ensuremath{\\mathscr{P}}"),
        '\u{1D4AC}' => Some("\\ensuremath{\\mathscr{Q}}"),
        '\u{1D4AD}' => Some("\\ensuremath{\\mathscr{R}}"),
        '\u{1D4AE}' => Some("\\ensuremath{\\mathscr{S}}"),
        '\u{1D4AF}' => Some("\\ensuremath{\\mathscr{T}}"),
        '\u{1D4B0}' => Some("\\ensuremath{\\mathscr{U}}"),
        '\u{1D4B1}' => Some("\\ensuremath{\\mathscr{V}}"),
        '\u{1D4B2}' => Some("\\ensuremath{\\mathscr{W}}"),
        '\u{1D4B3}' => Some("\\ensuremath{\\mathscr{X}}"),
        '\u{1D4B4}' => Some("\\ensuremath{\\mathscr{Y}}"),
        '\u{1D4B5}' => Some("\\ensuremath{\\mathscr{Z}}"),
        '\u{1D4B6}' => Some("\\ensuremath{\\mathscr{a}}"),
        '\u{1D4B7}' => Some("\\ensuremath{\\mathscr{b}}"),
        '\u{1D4B8}' => Some("\\ensuremath{\\mathscr{c}}"),
        '\u{1D4B9}' => Some("\\ensuremath{\\mathscr{d}}"),
        '\u{1D4BB}' => Some("\\ensuremath{\\mathscr{f}}"),
        '\u{1D4BD}' => Some("\\ensuremath{\\mathscr{h}}"),
        '\u{1D4BE}' => Some("\\ensuremath{\\mathscr{i}}"),
        '\u{1D4BF}' => Some("\\ensuremath{\\mathscr{j}}"),
        '\u{1D4C0}' => Some("\\ensuremath{\\mathscr{k}}"),
        '\u{1D4C1}' => Some("\\ensuremath{\\mathscr{l}}"),
        '\u{1D4C2}' => Some("\\ensuremath{\\mathscr{m}}"),
        '\u{1D4C3}' => Some("\\ensuremath{\\mathscr{n}}"),
        '\u{1D4C5}' => Some("\\ensuremath{\\mathscr{p}}"),
        '\u{1D4C6}' => Some("\\ensuremath{\\mathscr{q}}"),
        '\u{1D4C7}' => Some("\\ensuremath{\\mathscr{r}}"),
        '\u{1D4C8}' => Some("\\ensuremath{\\mathscr{s}}"),
        '\u{1D4C9}' => Some("\\ensuremath{\\mathscr{t}}"),
        '\u{1D4CA}' => Some("\\ensuremath{\\mathscr{u}}"),
        '\u{1D4CB}' => Some("\\ensuremath{\\mathscr{v}}"),
        '\u{1D4CC}' => Some("\\ensuremath{\\mathscr{w}}"),
        '\u{1D4CD}' => Some("\\ensuremath{\\mathscr{x}}"),
        '\u{1D4CE}' => Some("\\ensuremath{\\mathscr{y}}"),
        '\u{1D4CF}' => Some("\\ensuremath{\\mathscr{z}}"),
        '\u{1D504}' => Some("\\ensuremath{\\mathfrak{A}}"),
        '\u{1D505}' => Some("\\ensuremath{\\mathfrak{B}}"),
        '\u{1D506}' => Some("\\ensuremath{\\mathfrak{C}}"),
        '\u{1D507}' => Some("\\ensuremath{\\mathfrak{D}}"),
        '\u{1D508}' => Some("\\ensuremath{\\mathfrak{E}}"),
        '\u{1D509}' => Some("\\ensuremath{\\mathfrak{F}}"),
        '\u{1D50A}' => Some("\\ensuremath{\\mathfrak{G}}"),
        '\u{1D50B}' => Some("\\ensuremath{\\mathfrak{H}}"),
        '\u{1D50C}' => Some("\\ensuremath{\\mathfrak{I}}"),
        _ => None,
    }
}

/// Part 21 of the transliteration table.
pub open spec fn latex_part_21(c: char) -> Option<Seq<char>> {
    match c {
        '\u{1D50D}' => Some("\\ensuremath{\\mathfrak{J}}"@),
        '\u{1D50E}' => Some("\\ensuremath{\\mathfrak{K}}"@),
        '\u{1D50F}' => Some("\\ensuremath{\\mathfrak{L}}"@),
        '\u{1D510}' => Some("\\ensuremath{\\mathfrak{M}}"@),
        '\u{1D511}' => Some("\\ensuremath{\\mathfrak{N}}"@),
        '\u{1D512}' => Some("\\ensuremath{\\mathfrak{O}}"@),
        '\u{1D513}' => Some("\\ensuremath{\\mathfrak{P}}"@),
        '\u{1D514}' => Some("\\ensuremath{\\mathfrak{Q}}"@),
        '\u{1D515}' => Some("\\ensuremath{\\mathfrak{R}}"@),
        '\u{1D516}' => Some("\\ensuremath{\\mathfrak{S}}"@),
        '\u{1D517}' => Some("\\ensuremath{\\mathfrak{T}}"@),
        '\u{1D518}' => Some("\\ensuremath{\\mathfrak{U}}"@),
        '\u{1D519}' => Some("\\ensuremath{\\mathfrak{V}}"@),
        '\u{1D51A}' => Some("\\ensuremath{\\mathfrak{W}}"@),
        '\u{1D51B}' => Some("\\ensuremath{\\mathfrak{X}}"@),
        '\u{1D51C}' => Some("\\ensuremath{\\mathfrak{Y}}"@),
        '\u{1D51D}' => Some("\\ensuremath{\\mathfrak{Z}}"@),
        '\u{1D51E}' => Some("\\ensuremath{\\mathfrak{a}}"@),
        '\u{1D51F}' => Some("\\ensuremath{\\mathfrak{b}}"@),
        '\u{1D520}' => Some("\\ensuremath{\\mathfrak{c}}"@),
        '\u{1D521}' => Some("\\ensuremath{\\mathfrak{d}}"@),
        '\u{1D522}' => Some("\\ensuremath{\\mathfrak{e}}"@),
        '\u{1D523}' => Some("\\ensuremath{\\mathfrak{f}}"@),
        '\u{1D524}' => Some("\\ensuremath{\\mathfrak{g}}"@),
        '\u{1D525}' => Some("\\ensuremath{\\mathfrak{h}}"@),
        '\u{1D526}' => Some("\\ensuremath{\\mathfrak{i}}"@),
        '\u{1D527}' => Some("\\ensuremath{\\mathfrak{j}}"@),
        '\u{1D528}' => Some("\\ensuremath{\\mathfrak{k}}"@),
        '\u{1D529}' => Some("\\ensuremath{\\mathfrak{l}}"@),
        '\u{1D52A}' => Some("\\ensuremath{\\mathfrak{m}}"@),
        '\u{1D52B}' => Some("\\ensuremath{\\mathfrak{n}}"@),
        '\u{1D52C}' => Some("\\ensuremath{\\mathfrak{o}}"@),
        '\u{1D52D}' => Some("\\ensuremath{\\mathfrak{p}}"@),
        '\u{1D52E}' => Some("\\ensuremath{\\mathfrak{q}}"@),
        '\u{1D52F}' => Some("\\ensuremath{\\mathfrak{r}}"@),
        '\u{1D530}' => Some("\\ensuremath{\\mathfrak{s}}"@),
        '\u{1D531}' => Some("\\ensuremath{\\mathfrak{t}}"@),
        '\u{1D532}' => Some("\\ensuremath{\\mathfrak{u}}"@),
        '\u{1D533}' => Some("\\ensuremath{\\mathfrak{v}}"@),
        '\u{1D534}' => Some("\\ensuremath{\\mathfrak{w}}"@),
        '\u{1D535}' => Some("\\ensuremath{\\mathfrak{x}}"@),
        '\u{1D536}' => Some("\\ensuremath{\\mathfrak{y}}"@),
        '\u{1D537}' => Some("\\ensuremath{\\mathfrak{z}}"@),
        '\u{1D538}' => Some("\\ensuremath{\\mathbb{A}}"@),
        '\u{1D539}' => Some("\\ensuremath{\\mathbb{B}}"@),
        '\u{1D53A}' => Some("\\ensuremath{\\mathbb{C}}"@),
        '\u{1D53B}' => Some("\\ensuremath{\\mathbb{D}}"@),
        '\u{1D53C}' => Some("\\ensuremath{\\mathbb{E}}"@),
        '\u{1D53D}' => Some("\\ensuremath{\\mathbb{F}}"@),
        '\u{1D53E}' => Some("\\ensuremath{\\mathbb{G}}"@),
        '\u{1D53F}' => Some("\\ensuremath{\\mathbb{H}}"@),
        '\u{1D540}' => Some("\\ensuremath{\\mathbb{I}}"@),
        '\u{1D541}' => Some("\\ensuremath{\\mathbb{J}}"@),
        '\u{1D542}' => Some("\\ensuremath{\\mathbb{K}}"@),
        '\u{1D543}' => Some("\\ensuremath{\\mathbb{L}}"@),
        '\u{1D544}' => Some("\\ensuremath{\\mathbb{M}}"@),
        '\u{1D545}' => Some("\\ensuremath{\\mathbb{N}}"@),
        '\u{1D546}' => Some("\\ensuremath{\\mathbb{O}}"@),
        '\u{1D547}' => Some("\\ensuremath{\\mathbb{P}}"@),
        '\u{1D548}' => Some("\\ensuremath{\\mathbb{Q}}"@),
        _ => None,
    }
}

fn lookup_part_21(c: char) -> (r: Option<&'static str>)
    ensures
        r matches Some(t) ==> latex_part_21(c) == Some(t@),
        r is None ==> latex_part_21(c) is None,
{
    match c {
        '\u{1D50D}' => Some("\\ensuremath{\\mathfrak{J}}"),
        '\u{1D50E}' => Some("\\ensuremath{\\mathfrak{K}}"),
        '\u{1D50F}' => Some("\\ensuremath{\\mathfrak{L}}"),
        '\u{1D510}' => Some("\\ensuremath{\\mathfrak{M}}"),
        '\u{1D511}' => Some("\\ensuremath{\\mathfrak{N}}"),
        '\u{1D512}' => Some("\\ensuremath{\\mathfrak{O}}"),
        '\u{1D513}' => Some("\\ensuremath{\\mathfrak{P}}"),
        '\u{1D514}' => Some("\\ensuremath{\\mathfrak{Q}}"),
        '\u{1D515}' => Some("\\ensuremath{\\mathfrak{R}}"),
        '\u{1D516}' => Some("\\ensuremath{\\mathfrak{S}}"),
        '\u{1D517}' => Some("\\ensuremath{\\mathfrak{T}}"),
        '\u{1D518}' => Some("\\ensuremath{\\mathfrak{U}}"),
        '\u{1D519}' => Some("\\ensuremath{\\mathfrak{V}}"),
        '\u{1D51A}' => Some("\\ensuremath{\\mathfrak{W}}"),
        '\u{1D51B}' => Some("\\ensuremath{\\mathfrak{X}}"),
        '\u{1D51C}' => Some("\\ensuremath{\\mathfrak{Y}}"),
        '\u{1D51D}' => Some("\\ensuremath{\\mathfrak{Z}}"),
        '\u{1D51E}' => Some("\\ensuremath{\\mathfrak{a}}"),
        '\u{1D51F}' => Some("\\ensuremath{\\mathfrak{b}}"),
        '\u{1D520}' => Some("\\ensuremath{\\mathfrak{c}}"),
        '\u{1D521}' => Some("\\ensuremath{\\mathfrak{d}}"),
        '\u{1D522}' => Some("\\ensuremath{\\mathfrak{e}}"),
        '\u{1D523}' => Some("\\ensuremath{\\mathfrak{f}}"),
        '\u{1D524}' => Some("\\ensuremath{\\mathfrak{g}}"),
        '\u{1D525}' => Some("\\ensuremath{\\mathfrak{h}}"),
        '\u{1D526}' => Some("\\ensuremath{\\mathfrak{i}}"),
        '\u{1D527}' => Some("\\ensuremath{\\mathfrak{j}}"),
        '\u{1D528}' => Some("\\ensuremath{\\mathfrak{k}}"),
        '\u{1D529}' => Some("\\ensuremath{\\mathfrak{l}}"),
        '\u{1D52A}' => Some("\\ensuremath{\\mathfrak{m}}"),
        '\u{1D52B}' => Some("\\ensuremath{\\mathfrak{n}}"),
        '\u{1D52C}' => Some("\\ensuremath{\\mathfrak{o}}"),
        '\u{1D52D}' => Some("\\ensuremath{\\mathfrak{p}}"),
        '\u{1D52E}' => Some("\\ensuremath{\\mathfrak{q}}"),
        '\u{1D52F}' => Some("\\ensuremath{\\mathfrak{r}}"),
        '\u{1D530}' => Some("\\ensuremath{\\mathfrak{s}}"),
        '\u{1D531}' => Some("\\ensuremath{\\mathfrak{t}}"),
        '\u{1D532}' => Some("\\ensuremath{\\mathfrak{u}}"),
        '\u{1D533}' => Some("\\ensuremath{\\mathfrak{v}}"),
        '\u{1D534}' => Some("\\ensuremath{\\mathfrak{w}}"),
        '\u{1D535}' => Some("\\ensuremath{\\mathfrak{x}}"),
        '\u{1D536}' => Some("\\ensuremath{\\mathfrak{y}}"),
        '\u{1D537}' => Some("\\ensuremath{\\mathfrak{z}}"),
        '\u{1D538}' => Some("\\ensuremath{\\mathbb{A}}"),
        '\u{1D539}' => Some("\\ensuremath{\\mathbb{B}}"),
        '\u{1D53A}' => Some("\\ensuremath{\\mathbb{C}}"),
        '\u{1D53B}' => Some("\\ensuremath{\\mathbb{D}}"),
        '\u{1D53C}' => Some("\\ensuremath{\\mathbb{E}}"),
        '\u{1D53D}' => Some("\\ensuremath{\\mathbb{F}}"),
        '\u{1D53E}' => Some("\\ensuremath{\\mathbb{G}}"),
        '\u{1D53F}' => Some("\\ensuremath{\\mathbb{H}}"),
        '\u{1D540}' => Some("\\ensuremath{\\mathbb{I}}"),
        '\u{1D541}' => Some("\\ensuremath{\\mathbb{J}}"),
        '\u{1D542}' => Some("\\ensuremath{\\mathbb{K}}"),
        '\u{1D543}' => Some("\\ensuremath{\\mathbb{L}}"),
        '\u{1D544}' => Some("\\ensuremath{\\mathbb{M}}"),
        '\u{1D545}' => Some("\\ensuremath{\\mathbb{N}}"),
        '\u{1D546}' => Some("\\ensuremath{\\mathbb{O}}"),
        '\u{1D547}' => Some("\\ensuremath{\\mathbb{P}}"),
        '\u{1D548}' => Some("\\ensuremath{\\mathbb{Q}}"),
        _ => None,
    }
}

/// Part 22 of the transliteration table.
pub open spec fn latex_part_22(c: char) -> Option<Seq<char>> {
    match c {
        '\u{1D549}' => Some("\\ensuremath{\\mathbb{R}}"@),
        '\u{1D54A}' => Some("\\ensuremath{\\mathbb{S}}"@),
        '\u{1D54B}' => Some("\\ensuremath{\\mathbb{T}}"@),
        '\u{1D54C}' => Some("\\ensuremath{\\mathbb{U}}"@),
        '\u{1D54D}' => Some("\\ensuremath{\\mathbb{V}}"@),
        '\u{1D54E}' => Some("\\ensuremath{\\mathbb{W}}"@),
        '\u{1D54F}' => Some("\\ensuremath{\\mathbb{X}}"@),
        '\u{1D550}' => Some("\\ensuremath{\\mathbb{Y}}"@),
        '\u{1D551}' => Some("\\ensuremath{\\mathbb{Z}}"@),
        '\u{1D552}' => Some("\\ensuremath{\\mathbb{a}}"@),
        '\u{1D553}' => Some("\\ensuremath{\\mathbb{b}}"@),
        '\u{1D554}' => Some("\\ensuremath{\\mathbb{c}}"@),
        '\u{1D555}' => Some("\\ensuremath{\\mathbb{d}}"@),
        '\u{1D556}' => Some("\\ensuremath{\\mathbb{e}}"@),
        '\u{1D557}' => Some("\\ensuremath{\\mathbb{f}}"@),
        '\u{1D558}' => Some("\\ensuremath{\\mathbb{g}}"@),
        '\u{1D559}' => Some("\\ensuremath{\\mathbb{h}}"@),
        '\u{1D55A}' => Some("\\ensuremath{\\mathbb{i}}"@),
        '\u{1D55B}' => Some("\\ensuremath{\\mathbb{j}}"@),
        '\u{1D55C}' => Some("\\ensuremath{\\mathbb{k}}"@),
        '\u{1D55D}' => Some("\\ensuremath{\\mathbb{l}}"@),
        '\u{1D55E}' => Some("\\ensuremath{\\mathbb{m}}"@),
        '\u{1D55F}' => Some("\\ensuremath{\\mathbb{n}}"@),
        '\u{1D560}' => Some("\\ensuremath{\\mathbb{o}}"@),
        '\u{1D561}' => Some("\\ensuremath{\\mathbb{p}}"@),
        '\u{1D562}' => Some("\\ensuremath{\\mathbb{q}}"@),
        '\u{1D563}' => Some("\\ensuremath{\\mathbb{r}}"@),
        '\u{1D564}' => Some("\\ensuremath{\\mathbb{s}}"@),
        '\u{1D565}' => Some("\\ensuremath{\\mathbb{t}}"@),
        '\u{1D566}' => Some("\\ensuremath{\\mathbb{u}}"@),
        '\u{1D567}' => Some("\\ensuremath{\\mathbb{v}}"@),
        '\u{1D568}' => Some("\\ensuremath{\\mathbb{w}}"@),
        '\u{1D569}' => Some("\\ensuremath{\\mathbb{x}}"@),
        '\u{1D56A}' => Some("\\ensuremath{\\mathbb{y}}"@),
        '\u{1D56B}' => Some("\\ensuremath{\\mathbb{z}}"@),
        '\u{1D5A0}' => Some("\\ensuremath{\\mathsf{A}}"@),
        '\u{1D5A1}' => Some("\\ensuremath{\\mathsf{B}}"@),
        '\u{1D5A2}' => Some("\\ensuremath{\\mathsf{C}}"@),
        '\u{1D5A3}' => Some("\\ensuremath{\\mathsf{D}}"@),
        '\u{1D5A4}' => Some("\\ensuremath{\\mathsf{E}}"@),
        '\u{1D5A5}' => Some("\\ensuremath{\\mathsf{F}}"@),
        '\u{1D5A6}' => Some("\\ensuremath{\\mathsf{G}}"@),
        '\u{1D5A7}' => Some("\\ensuremath{\\mathsf{H}}"@),
        '\u{1D5A8}' => Some("\\ensuremath{\\mathsf{I}}"@),
        '\u{1D5A9}' => Some("\\ensuremath{\\mathsf{J}}"@),
        '\u{1D5AA}' => Some("\\ensuremath{\\mathsf{K}}"@),
        '\u{1D5AB}' => Some("\\ensuremath{\\mathsf{L}}"@),
        '\u{1D5AC}' => Some("\\ensuremath{\\mathsf{M}}"@),
        '\u{1D5AD}' => Some("\\ensuremath{\\mathsf{N}}"@),
        '\u{1D5AE}' => Some("\\ensuremath{\\mathsf{O}}"@),
        '\u{1D5AF}' => Some("\\ensuremath{\\mathsf{P}}"@),
        '\u{1D5B0}' => Some("\\ensuremath{\\mathsf{Q}}"@),
        '\u{1D5B1}' => Some("\\ensuremath{\\mathsf{R}}"@),
        '\u{1D5B2}' => Some("\\ensuremath{\\mathsf{S}}"@),
        '\u{1D5B3}' => Some("\\ensuremath{\\mathsf{T}}"@),
        '\u{1D5B4}' => Some("\\ensuremath{\\mathsf{U}}"@),
        '\u{1D5B5}' => Some("\\ensuremath{\\mathsf{V}}"@),
        '\u{1D5B6}' => Some("\\ensuremath{\\mathsf{W}}"@),
        '\u{1D5B7}' => Some("\\ensuremath{\\mathsf{X}}"@),
        '\u{1D5B8}' => Some("\\ensuremath{\\mathsf{Y}}"@),
        _ => None,
    }
}

fn lookup_part_22(c: char) -> (r: Option<&'static str>)
    ensures
        r matches Some(t) ==> latex_part_22(c) == Some(t@),
        r is None ==> latex_part_22(c) is None,
{
    match c {
        '\u{1D549}' => Some("\\ensuremath{\\mathbb{R}}"),
        '\u{1D54A}' => Some("\\ensuremath{\\mathbb{S}}"),
        '\u{1D54B}' => Some("\\ensuremath{\\mathbb{T}}"),
        '\u{1D54C}' => Some("\\ensuremath{\\mathbb{U}}"),
        '\u{1D54D}' => Some("\\ensuremath{\\mathbb{V}}"),
        '\u{1D54E}' => Some("\\ensuremath{\\mathbb{W}}"),
        '\u{1D54F}' => Some("\\ensuremath{\\mathbb{X}}"),
        '\u{1D550}' => Some("\\ensuremath{\\mathbb{Y}}"),
        '\u{1D551}' => Some("\\ensuremath{\\mathbb{Z}}"),
        '\u{1D552}' => Some("\\ensuremath{\\mathbb{a}}"),
        '\u{1D553}' => Some("\\ensuremath{\\mathbb{b}}"),
        '\u{1D554}' => Some("\\ensuremath{\\mathbb{c}}"),
        '\u{1D555}' => Some("\\ensuremath{\\mathbb{d}}"),
        '\u{1D556}' => Some("\\ensuremath{\\mathbb{e}}"),
        '\u{1D557}' => Some("\\ensuremath{\\mathbb{f}}"),
        '\u{1D558}' => Some("\\ensuremath{\\mathbb{g}}"),
        '\u{1D559}' => Some("\\ensuremath{\\mathbb{h}}"),
        '\u{1D55A}' => Some("\\ensuremath{\\mathbb{i}}"),
        '\u{1D55B}' => Some("\\ensuremath{\\mathbb{j}}"),
        '\u{1D55C}' => Some("\\ensuremath{\\mathbb{k}}"),
        '\u{1D55D}' => Some("\\ensuremath{\\mathbb{l}}"),
        '\u{1D55E}' => Some("\\ensuremath{\\mathbb{m}}"),
        '\u{1D55F}' => Some("\\ensuremath{\\mathbb{n}}"),
        '\u{1D560}' => Some("\\ensuremath{\\mathbb{o}}"),
        '\u{1D561}' => Some("\\ensuremath{\\mathbb{p}}"),
        '\u{1D562}' => Some("\\ensuremath{\\mathbb{q}}"),
        '\u{1D563}' => Some("\\ensuremath{\\mathbb{r}}"),
        '\u{1D564}' => Some("\\ensuremath{\\mathbb{s}}"),
        '\u{1D565}' => Some("\\ensuremath{\\mathbb{t}}"),
        '\u{1D566}' => Some("\\ensuremath{\\mathbb{u}}"),
        '\u{1D567}' => Some("\\ensuremath{\\mathbb{v}}"),
        '\u{1D568}' => Some("\\ensuremath{\\mathbb{w}}"),
        '\u{1D569}' => Some("\\ensuremath{\\mathbb{x}}"),
        '\u{1D56A}' => Some("\\ensuremath{\\mathbb{y}}"),
        '\u{1D56B}' => Some("\\ensuremath{\\mathbb{z}}"),
        '\u{1D5A0}' => Some("\\ensuremath{\\mathsf{A}}"),
        '\u{1D5A1}' => Some("\\ensuremath{\\mathsf{B}}"),
        '\u{1D5A2}' => Some("\\ensuremath{\\mathsf{C}}"),
        '\u{1D5A3}' => Some("\\ensuremath{\\mathsf{D}}"),
        '\u{1D5A4}' => Some("\\ensuremath{\\mathsf{E}}"),
        '\u{1D5A5}' => Some("\\ensuremath{\\mathsf{F}}"),
        '\u{1D5A6}' => Some("\\ensuremath{\\mathsf{G}}"),
        '\u{1D5A7}' => Some("\\ensuremath{\\mathsf{H}}"),
        '\u{1D5A8}' => Some("\\ensuremath{\\mathsf{I}}"),
        '\u{1D5A9}' => Some("\\ensuremath{\\mathsf{J}}"),
        '\u{1D5AA}' => Some("\\ensuremath{\\mathsf{K}}"),
        '\u{1D5AB}' => Some("\\ensuremath{\\mathsf{L}}"),
        '\u{1D5AC}' => Some("\\ensuremath{\\mathsf{M}}"),
        '\u{1D5AD}' => Some("\\ensuremath{\\mathsf{N}}"),
        '\u{1D5AE}' => Some("\\ensuremath{\\mathsf{O}}"),
        '\u{1D5AF}' => Some("\\ensuremath{\\mathsf{P}}"),
        '\u{1D5B0}' => Some("\\ensuremath{\\mathsf{Q}}"),
        '\u{1D5B1}' => Some("\\ensuremath{\\mathsf{R}}"),
        '\u{1D5B2}' => Some("\\ensuremath{\\mathsf{S}}"),
        '\u{1D5B3}' => Some("\\ensuremath{\\mathsf{T}}"),
        '\u{1D5B4}' => Some("\\ensuremath{\\mathsf{U}}"),
        '\u{1D5B5}' => Some("\\ensuremath{\\mathsf{V}}"),
        '\u{1D5B6}' => Some("\\ensuremath{\\mathsf{W}}"),
        '\u{1D5B7}' => Some("\\ensuremath{\\mathsf{X}}"),
        '\u{1D5B8}' => Some("\\ensuremath{\\mathsf{Y}}"),
        _ => None,
    }
}

/// Part 23 of the transliteration table.
pub open spec fn latex_part_23(c: char) -> Option<Seq<char>> {
    match c {
        '\u{1D5B9}' => Some("\\ensuremath{\\mathsf{Z}}"@),
        '\u{1D5BA}' => Some("\\ensuremath{\\mathsf{a}}"@),
        '\u{1D5BB}' => Some("\\ensuremath{\\mathsf{b}}"@),
        '\u{1D5BC}' => Some("\\ensuremath{\\mathsf{c}}"@),
        '\u{1D5BD}' => Some("\\ensuremath{\\mathsf{d}}"@),
        '\u{1D5BE}' => Some("\\ensuremath{\\mathsf{e}}"@),
        '\u{1D5BF}' => Some("\\ensuremath{\\mathsf{f}}"@),
        '\u{1D5C0}' => Some("\\ensuremath{\\mathsf{g}}"@),
        '\u{1D5C1}' => Some("\\ensuremath{\\mathsf{h}}"@),
        '\u{1D5C2}' => Some("\\ensuremath{\\mathsf{i}}"@),
        '\u{1D5C3}' => Some("\\ensuremath{\\mathsf{j}}"@),
        '\u{1D5C4}' => Some("\\ensuremath{\\mathsf{k}}"@),
        '\u{1D5C5}' => Some("\\ensuremath{\\mathsf{l}}"@),
        '\u{1D5C6}' => Some("\\ensuremath{\\mathsf{m}}"@),
        '\u{1D5C7}' => Some("\\ensuremath{\\mathsf{n}}"@),
        '\u{1D5C8}' => Some("\\ensuremath{\\mathsf{o}}"@),
        '\u{1D5C9}' => Some("\\ensuremath{\\mathsf{p}}"@),
        '\u{1D5CA}' => Some("\\ensuremath{\\mathsf{q}}"@),
        '\u{1D5CB}' => Some("\\ensuremath{\\mathsf{r}}"@),
        '\u{1D5CC}' => Some("\\ensuremath{\\mathsf{s}}"@),
        '\u{1D5CD}' => Some("\\ensuremath{\\mathsf{t}}"@),
        '\u{1D5CE}' => Some("\\ensuremath{\\mathsf{u}}"@),
        '\u{1D5CF}' => Some("\\ensuremath{\\mathsf{v}}"@),
        '\u{1D5D0}' => Some("\\ensuremath{\\mathsf{w}}"@),
        '\u{1D5D1}' => Some("\\ensuremath{\\mathsf{x}}"@),
        '\u{1D5D2}' => Some("\\ensuremath{\\mathsf{y}}"@),
        '\u{1D5D3}' => Some("\\ensuremath{\\mathsf{z}}"@),
        '\u{1D670}' => Some("\\ensuremath{\\mathtt{A}}"@),
        '\u{1D671}' => Some("\\ensuremath{\\mathtt{B}}"@),
        '\u{1D672}' => Some("\\ensuremath{\\mathtt{C}}"@),
        '\u{1D673}' => Some("\\ensuremath{\\mathtt{D}}"@),
        '\u{1D674}' => Some("\\ensuremath{\\mathtt{E}}"@),
        '\u{1D675}' => Some("\\ensuremath{\\mathtt{F}}"@),
        '\u{1D676}' => Some("\\ensuremath{\\mathtt{G}}"@),
        '\u{1D677}' => Some("\\ensuremath{\\mathtt{H}}"@),
        '\u{1D678}' => Some("\\ensuremath{\\mathtt{I}}"@),
        '\u{1D679}' => Some("\\ensuremath{\\mathtt{J}}"@),
        '\u{1D67A}' => Some("\\ensuremath{\\mathtt{K}}"@),
        '\u{1D67B}' => Some("\\ensuremath{\\mathtt{L}}"@),
        '\u{1D67C}' => Some("\\ensuremath{\\mathtt{M}}"@),
        '\u{1D67D}' => Some("\\ensuremath{\\mathtt{N}}"@),
        '\u{1D67E}' => Some("\\ensuremath{\\mathtt{O}}"@),
        '\u{1D67F}' => Some("\\ensuremath{\\mathtt{P}}"@),
        '\u{1D680}' => Some("\\ensuremath{\\mathtt{Q}}"@),
        '\u{1D681}' => Some("\\ensuremath{\\mathtt{R}}"@),
        '\u{1D682}' => Some("\\ensuremath{\\mathtt{S}}"@),
        '\u{1D683}' => Some("\\ensuremath{\\mathtt{T}}"@),
        '\u{1D684}' => Some("\\ensuremath{\\mathtt{U}}"@),
        '\u{1D685}' => Some("\\ensuremath{\\mathtt{V}}"@),
        '\u{1D686}' => Some("\\ensuremath{\\mathtt{W}}"@),
        '\u{1D687}' => Some("\\ensuremath{\\mathtt{X}}"@),
        '\u{1D688}' => Some("\\ensuremath{\\mathtt{Y}}"@),
        '\u{1D689}' => Some("\\ensuremath{\\mathtt{Z}}"@),
        '\u{1D68A}' => Some("\\ensuremath{\\mathtt{a}}"@),
        '\u{1D68B}' => Some("\\ensuremath{\\mathtt{b}}"@),
        '\u{1D68C}' => Some("\\ensuremath{\\mathtt{c}}"@),
        '\u{1D68D}' => Some("\\ensuremath{\\mathtt{d}}"@),
        '\u{1D68E}' => Some("\\ensuremath{\\mathtt{e}}"@),
        '\u{1D68F}' => Some("\\ensuremath{\\mathtt{f}}"@),
        '\u{1D690}' => Some("\\ensuremath{\\mathtt{g}}"@),
        _ => None,
    }
}

fn lookup_part_23(c: char) -> (r: Option<&'static str>)
    ensures
        r matches Some(t) ==> latex_part_23(c) == Some(t@),
        r is None ==> latex_part_23(c) is None,
{
    match c {
        '\u{1D5B9}' => Some("\\ensuremath{\\mathsf{Z}}"),
        '\u{1D5BA}' => Some("\\ensuremath{\\mathsf{a}}"),
        '\u{1D5BB}' => Some("\\ensuremath{\\mathsf{b}}"),
        '\u{1D5BC}' => Some("\\ensuremath{\\mathsf{c}}"),
        '\u{1D5BD}' => Some("\\ensuremath{\\mathsf{d}}"),
        '\u{1D5BE}' => Some("\\ensuremath{\\mathsf{e}}"),
        '\u{1D5BF}' => Some("\\ensuremath{\\mathsf{f}}"),
        '\u{1D5C0}' => Some("\\ensuremath{\\mathsf{g}}"),
        '\u{1D5C1}' => Some("\\ensuremath{\\mathsf{h}}"),
        '\u{1D5C2}' => Some("\\ensuremath{\\mathsf{i}}"),
        '\u{1D5C3}' => Some("\\ensuremath{\\mathsf{j}}"),
        '\u{1D5C4}' => Some("\\ensuremath{\\mathsf{k}}"),
        '\u{1D5C5}' => Some("\\ensuremath{\\mathsf{l}}"),
        '\u{1D5C6}' => Some("\\ensuremath{\\mathsf{m}}"),
        '\u{1D5C7}' => Some("\\ensuremath{\\mathsf{n}}"),
        '\u{1D5C8}' => Some("\\ensuremath{\\mathsf{o}}"),
        '\u{1D5C9}' => Some("\\ensuremath{\\mathsf{p}}"),
        '\u{1D5CA}' => Some("\\ensuremath{\\mathsf{q}}"),
        '\u{1D5CB}' => Some("\\ensuremath{\\mathsf{r}}"),
        '\u{1D5CC}' => Some("\\ensuremath{\\mathsf{s}}"),
        '\u{1D5CD}' => Some("\\ensuremath{\\mathsf{t}}"),
        '\u{1D5CE}' => Some("\\ensuremath{\\mathsf{u}}"),
        '\u{1D5CF}' => Some("\\ensuremath{\\mathsf{v}}"),
        '\u{1D5D0}' => Some("\\ensuremath{\\mathsf{w}}"),
        '\u{1D5D1}' => Some("\\ensuremath{\\mathsf{x}}"),
        '\u{1D5D2}' => Some("\\ensuremath{\\mathsf{y}}"),
        '\u{1D5D3}' => Some("\\ensuremath{\\mathsf{z}}"),
        '\u{1D670}' => Some("\\ensuremath{\\mathtt{A}}"),
        '\u{1D671}' => Some("\\ensuremath{\\mathtt{B}}"),
        '\u{1D672}' => Some("\\ensuremath{\\mathtt{C}}"),
        '\u{1D673}' => Some("\\ensuremath{\\mathtt{D}}"),
        '\u{1D674}' => Some("\\ensuremath{\\mathtt{E}}"),
        '\u{1D675}' => Some("\\ensuremath{\\mathtt{F}}"),
        '\u{1D676}' => Some("\\ensuremath{\\mathtt{G}}"),
        '\u{1D677}' => Some("\\ensuremath{\\mathtt{H}}"),
        '\u{1D678}' => Some("\\ensuremath{\\mathtt{I}}"),
        '\u{1D679}' => Some("\\ensuremath{\\mathtt{J}}"),
        '\u{1D67A}' => Some("\\ensuremath{\\mathtt{K}}"),
        '\u{1D67B}' => Some("\\ensuremath{\\mathtt{L}}"),
        '\u{1D67C}' => Some("\\ensuremath{\\mathtt{M}}"),
        '\u{1D67D}' => Some("\\ensuremath{\\mathtt{N}}"),
        '\u{1D67E}' => Some("\\ensuremath{\\mathtt{O}}"),
        '\u{1D67F}' => Some("\\ensuremath{\\mathtt{P}}"),
        '\u{1D680}' => Some("\\ensuremath{\\mathtt{Q}}"),
        '\u{1D681}' => Some("\\ensuremath{\\mathtt{R}}"),
        '\u{1D682}' => Some("\\ensuremath{\\mathtt{S}}"),
        '\u{1D683}' => Some("\\ensuremath{\\mathtt{T}}"),
        '\u{1D684}' => Some("\\ensuremath{\\mathtt{U}}"),
        '\u{1D685}' => Some("\\ensuremath{\\mathtt{V}}"),
        '\u{1D686}' => Some("\\ensuremath{\\mathtt{W}}"),
        '\u{1D687}' => Some("\\ensuremath{\\mathtt{X}}"),
        '\u{1D688}' => Some("\\ensuremath{\\mathtt{Y}}"),
        '\u{1D689}' => Some("\\ensuremath{\\mathtt{Z}}"),
        '\u{1D68A}' => Some("\\ensuremath{\\mathtt{a}}"),
        '\u{1D68B}' => Some("\\ensuremath{\\mathtt{b}}"),
        '\u{1D68C}' => Some("\\ensuremath{\\mathtt{c}}"),
        '\u{1D68D}' => Some("\\ensuremath{\\mathtt{d}}"),
        '\u{1D68E}' => Some("\\ensuremath{\\mathtt{e}}"),
        '\u{1D68F}' => Some("\\ensuremath{\\mathtt{f}}"),
        '\u{1D690}' => Some("\\ensuremath{\\mathtt{g}}"),
        _ => None,
    }
}

/// Part 24 of the transliteration table.
pub open spec fn latex_part_24(c: char) -> Option<Seq<char>> {
    match c {
        '\u{1D691}' => Some("\\ensuremath{\\mathtt{h}}"@),
        '\u{1D692}' => Some("\\ensuremath{\\mathtt{i}}"@),
        '\u{1D693}' => Some("\\ensuremath{\\mathtt{j}}"@),
        '\u{1D694}' => Some("\\ensuremath{\\mathtt{k}}"@),
        '\u{1D695}' => Some("\\ensuremath{\\mathtt{l}}"@),
        '\u{1D696}' => Some("\\ensuremath{\\mathtt{m}}"@),
        '\u{1D697}' => Some("\\ensuremath{\\mathtt{n}}"@),
        '\u{1D698}' => Some("\\ensuremath{\\mathtt{o}}"@),
        '\u{1D699}' => Some("\\ensuremath{\\mathtt{p}}"@),
        '\u{1D69A}' => Some("\\ensuremath{\\mathtt{q}}"@),
        '\u{1D69B}' => Some("\\ensuremath{\\mathtt{r}}"@),
        '\u{1D69C}' => Some("\\ensuremath{\\mathtt{s}}"@),
        '\u{1D69D}' => Some("\\ensuremath{\\mathtt{t}}"@),
        '\u{1D69E}' => Some("\\ensuremath{\\mathtt{u}}"@),
        '\u{1D69F}' => Some("\\ensuremath{\\mathtt{v}}"@),
        '\u{1D6A0}' => Some("\\ensuremath{\\mathtt{w}}"@),
        '\u{1D6A1}' => Some("\\ensuremath{\\mathtt{x}}"@),
        '\u{1D6A2}' => Some("\\ensuremath{\\mathtt{y}}"@),
        '\u{1D6A3}' => Some("\\ensuremath{\\mathtt{z}}"@),
        '\u{1D7CE}' => Some("\\ensuremath{\\mathbf{0}}"@),
        '\u{1D7CF}' => Some("\\ensuremath{\\mathbf{1}}"@),
        '\u{1D7D0}' => Some("\\ensuremath{\\mathbf{2}}"@),
        '\u{1D7D1}' => Some("\\ensuremath{\\mathbf{3}}"@),
        '\u{1D7D2}' => Some("\\ensuremath{\\mathbf{4}}"@),
        '\u{1D7D3}' => Some("\\ensuremath{\\mathbf{5}}"@),
        '\u{1D7D4}' => Some("\\ensuremath{\\mathbf{6}}"@),
        '\u{1D7D5}' => Some("\\ensuremath{\\mathbf{7}}"@),
        '\u{1D7D6}' => Some("\\ensuremath{\\mathbf{8}}"@),
        '\u{1D7D7}' => Some("\\ensuremath{\\mathbf{9}}"@),
        '\u{1D7D8}' => Some("\\ensuremath{\\mathbb{0}}"@),
        '\u{1D7D9}' => Some("\\ensuremath{\\mathbb{1}}"@),
        '\u{1D7DA}' => Some("\\ensuremath{\\mathbb{2}}"@),
        '\u{1D7DB}' => Some("\\ensuremath{\\mathbb{3}}"@),
        '\u{1D7DC}' => Some("\\ensuremath{\\mathbb{4}}"@),
        '\u{1D7DD}' => Some("\\ensuremath{\\mathbb{5}}"@),
        '\u{1D7DE}' => Some("\\ensuremath{\\mathbb{6}}"@),
        '\u{1D7DF}' => Some("\\ensuremath{\\mathbb{7}}"@),
        '\u{1D7E0}' => Some("\\ensuremath{\\mathbb{8}}"@),
        '\u{1D7E1}' => Some("\\ensuremath{\\mathbb{9}}"@),
        '\u{1D7E2}' => Some("\\ensuremath{\\mathsf{0}}"@),
        '\u{1D7E3}' => Some("\\ensuremath{\\mathsf{1}}"@),
        '\u{1D7E4}' => Some("\\ensuremath{\\mathsf{2}}"@),
        '\u{1D7E5}' => Some("\\ensuremath{\\mathsf{3}}"@),
        '\u{1D7E6}' => Some("\\ensuremath{\\mathsf{4}}"@),
        '\u{1D7E7}' => Some("\\ensuremath{\\mathsf{5}}"@),
        '\u{1D7E8}' => Some("\\ensuremath{\\mathsf{6}}"@),
        '\u{1D7E9}' => Some("\\ensuremath{\\mathsf{7}}"@),
        '\u{1D7EA}' => Some("\\ensuremath{\\mathsf{8}}"@),
        '\u{1D7EB}' => Some("\\ensuremath{\\mathsf{9}}"@),
        '\u{1D7F6}' => Some("\\ensuremath{\\mathtt{0}}"@),
        '\u{1D7F7}' => Some("\\ensuremath{\\mathtt{1}}"@),
        '\u{1D7F8}' => Some("\\ensuremath{\\mathtt{2}}"@),
        '\u{1D7F9}' => Some("\\ensuremath{\\mathtt{3}}"@),
        '\u{1D7FA}' => Some("\\ensuremath{\\mathtt{4}}"@),
        '\u{1D7FB}' => Some("\\ensuremath{\\mathtt{5}}"@),
        '\u{1D7FC}' => Some("\\ensuremath{\\mathtt{6}}"@),
        '\u{1D7FD}' => Some("\\ensuremath{\\mathtt{7}}"@),
        '\u{1D7FE}' => Some("\\ensuremath{\\mathtt{8}}"@),
        '\u{1D7FF}' => Some("\\ensuremath{\\mathtt{9}}"@),
        _ => None,
    }
}

fn lookup_part_24(c: char) -> (r: Option<&'static str>)
    ensures
        r matches Some(t) ==> latex_part_24(c) == Some(t@),
        r is None ==> latex_part_24(c) is None,
{
    match c {
        '\u{1D691}' => Some("\\ensuremath{\\mathtt{h}}"),
        '\u{1D692}' => Some("\\ensuremath{\\mathtt{i}}"),
        '\u{1D693}' => Some("\\ensuremath{\\mathtt{j}}"),
        '\u{1D694}' => Some("\\ensuremath{\\mathtt{k}}"),
        '\u{1D695}' => Some("\\ensuremath{\\mathtt{l}}"),
        '\u{1D696}' => Some("\\ensuremath{\\mathtt{m}}"),
        '\u{1D697}' => Some("\\ensuremath{\\mathtt{n}}"),
        '\u{1D698}' => Some("\\ensuremath{\\mathtt{o}}"),
        '\u{1D699}' => Some("\\ensuremath{\\mathtt{p}}"),
        '\u{1D69A}' => Some("\\ensuremath{\\mathtt{q}}"),
        '\u{1D69B}' => Some("\\ensuremath{\\mathtt{r}}"),
        '\u{1D69C}' => Some("\\ensuremath{\\mathtt{s}}"),
        '\u{1D69D}' => Some("\\ensuremath{\\mathtt{t}}"),
        '\u{1D69E}' => Some("\\ensuremath{\\mathtt{u}}"),
        '\u{1D69F}' => Some("\\ensuremath{\\mathtt{v}}"),
        '\u{1D6A0}' => Some("\\ensuremath{\\mathtt{w}}"),
        '\u{1D6A1}' => Some("\\ensuremath{\\mathtt{x}}"),
        '\u{1D6A2}' => Some("\\ensuremath{\\mathtt{y}}"),
        '\u{1D6A3}' => Some("\\ensuremath{\\mathtt{z}}"),
        '\u{1D7CE}' => Some("\\ensuremath{\\mathbf{0}}"),
        '\u{1D7CF}' => Some("\\ensuremath{\\mathbf{1}}"),
        '\u{1D7D0}' => Some("\\ensuremath{\\mathbf{2}}"),
        '\u{1D7D1}' => Some("\\ensuremath{\\mathbf{3}}"),
        '\u{1D7D2}' => Some("\\ensuremath{\\mathbf{4}}"),
        '\u{1D7D3}' => Some("\\ensuremath{\\mathbf{5}}"),
        '\u{1D7D4}' => Some("\\ensuremath{\\mathbf{6}}"),
        '\u{1D7D5}' => Some("\\ensuremath{\\mathbf{7}}"),
        '\u{1D7D6}' => Some("\\ensuremath{\\mathbf{8}}"),
        '\u{1D7D7}' => Some("\\ensuremath{\\mathbf{9}}"),
        '\u{1D7D8}' => Some("\\ensuremath{\\mathbb{0}}"),
        '\u{1D7D9}' => Some("\\ensuremath{\\mathbb{1}}"),
        '\u{1D7DA}' => Some("\\ensuremath{\\mathbb{2}}"),
        '\u{1D7DB}' => Some("\\ensuremath{\\mathbb{3}}"),
        '\u{1D7DC}' => Some("\\ensuremath{\\mathbb{4}}"),
        '\u{1D7DD}' => Some("\\ensuremath{\\mathbb{5}}"),
        '\u{1D7DE}' => Some("\\ensuremath{\\mathbb{6}}"),
        '\u{1D7DF}' => Some("\\ensuremath{\\mathbb{7}}"),
        '\u{1D7E0}' => Some("\\ensuremath{\\mathbb{8}}"),
        '\u{1D7E1}' => Some("\\ensuremath{\\mathbb{9}}"),
        '\u{1D7E2}' => Some("\\ensuremath{\\mathsf{0}}"),
        '\u{1D7E3}' => Some("\\ensuremath{\\mathsf{1}}"),
        '\u{1D7E4}' => Some("\\ensuremath{\\mathsf{2}}"),
        '\u{1D7E5}' => Some("\\ensuremath{\\mathsf{3}}"),
        '\u{1D7E6}' => Some("\\ensuremath{\\mathsf{4}}"),
        '\u{1D7E7}' => Some("\\ensuremath{\\mathsf{5}}"),
        '\u{1D7E8}' => Some("\\ensuremath{\\mathsf{6}}"),
        '\u{1D7E9}' => Some("\\ensuremath{\\mathsf{7}}"),
        '\u{1D7EA}' => Some("\\ensuremath{\\mathsf{8}}"),
        '\u{1D7EB}' => Some("\\ensuremath{\\mathsf{9}}"),
        '\u{1D7F6}' => Some("\\ensuremath{\\mathtt{0}}"),
        '\u{1D7F7}' => Some("\\ensuremath{\\mathtt{1}}"),
        '\u{1D7F8}' => Some("\\ensuremath{\\mathtt{2}}"),
        '\u{1D7F9}' => Some("\\ensuremath{\\mathtt{3}}"),
        '\u{1D7FA}' => Some("\\ensuremath{\\mathtt{4}}"),
        '\u{1D7FB}' => Some("\\ensuremath{\\mathtt{5}}"),
        '\u{1D7FC}' => Some("\\ensuremath{\\mathtt{6}}"),
        '\u{1D7FD}' => Some("\\ensuremath{\\mathtt{7}}"),
        '\u{1D7FE}' => Some("\\ensuremath{\\mathtt{8}}"),
        '\u{1D7FF}' => Some("\\ensuremath{\\mathtt{9}}"),
        _ => None,
    }
}

/// The LaTeX command that stands for the non-ASCII character `c`, if there is one.
pub open spec fn latex_of(c: char) -> Option<Seq<char>> {
    if (c as u32) <= 0xDC {
        latex_part_0(c)
    } else if (c as u32) <= 0x118 {
        latex_part_1(c)
    } else if (c as u32) <= 0x154 {
        latex_part_2(c)
    } else if (c as u32) <= 0x2D9 {
        latex_part_3(c)
    } else if (c as u32) <= 0x3BF {
        latex_part_4(c)
    } else if (c as u32) <= 0x424 {
        latex_part_5(c)
    } else if (c as u32) <= 0x460 {
        latex_part_6(c)
    } else if (c as u32) <= 0x4A3 {
        latex_part_7(c)
    } else if (c as u32) <= 0x4E2 {
        latex_part_8(c)
    } else if (c as u32) <= 0x2030 {
        latex_part_9(c)
    } else if (c as u32) <= 0x2131 {
        latex_part_10(c)
    } else if (c as u32) <= 0x21C6 {
        latex_part_11(c)
    } else if (c as u32) <= 0x2228 {
        latex_part_12(c)
    } else if (c as u32) <= 0x2270 {
        latex_part_13(c)
    } else if (c as u32) <= 0x22B2 {
        latex_part_14(c)
    } else if (c as u32) <= 0x2315 {
        latex_part_15(c)
    } else if (c as u32) <= 0x2A88 {
        latex_part_16(c)
    } else if (c as u32) <= 0x1D421 {
        latex_part_17(c)
    } else if (c as u32) <= 0x1D45D {
        latex_part_18(c)
    } else if (c as u32) <= 0x1D499 {
        latex_part_19(c)
    } else if (c as u32) <= 0x1D50C {
        latex_part_20(c)
    } else if (c as u32) <= 0x1D548 {
        latex_part_21(c)
    } else if (c as u32) <= 0x1D5B8 {
        latex_part_22(c)
    } else if (c as u32) <= 0x1D690 {
        latex_part_23(c)
    } else {
        latex_part_24(c)
    }
}

/// Looks `c` up in the transliteration table.
pub fn latex_lookup(c: char) -> (r: Option<&'static str>)
    ensures
        r matches Some(t) ==> latex_of(c) == Some(t@),
        r is None ==> latex_of(c) is None,
{
    let n = c as u32;
    if n <= 0xDC {
        lookup_part_0(c)
    } else if n <= 0x118 {
        lookup_part_1(c)
    } else if n <= 0x154 {
        lookup_part_2(c)
    } else if n <= 0x2D9 {
        lookup_part_3(c)
    } else if n <= 0x3BF {
        lookup_part_4(c)
    } else if n <= 0x424 {
        lookup_part_5(c)
    } else if n <= 0x460 {
        lookup_part_6(c)
    } else if n <= 0x4A3 {
        lookup_part_7(c)
    } else if n <= 0x4E2 {
        lookup_part_8(c)
    } else if n <= 0x2030 {
        lookup_part_9(c)
    } else if n <= 0x2131 {
        lookup_part_10(c)
    } else if n <= 0x21C6 {
        lookup_part_11(c)
    } else if n <= 0x2228 {
        lookup_part_12(c)
    } else if n <= 0x2270 {
        lookup_part_13(c)
    } else if n <= 0x22B2 {
        lookup_part_14(c)
    } else if n <= 0x2315 {
        lookup_part_15(c)
    } else if n <= 0x2A88 {
        lookup_part_16(c)
    } else if n <= 0x1D421 {
        lookup_part_17(c)
    } else if n <= 0x1D45D {
        lookup_part_18(c)
    } else if n <= 0x1D499 {
        lookup_part_19(c)
    } else if n <= 0x1D50C {
        lookup_part_20(c)
    } else if n <= 0x1D548 {
        lookup_part_21(c)
    } else if n <= 0x1D5B8 {
        lookup_part_22(c)
    } else if n <= 0x1D690 {
        lookup_part_23(c)
    } else {
        lookup_part_24(c)
    }
}

/// An ASCII character, which stands for itself.
pub open spec fn ascii(c: char) -> bool {
    (c as u32) < 128
}

/// `s` with every non-ASCII character replaced by its LaTeX command in braces, or the
/// first character that the table does not know.
pub open spec fn transliterated(s: Seq<char>) -> Result<Seq<char>, char>
    decreases s.len(),
{
    if s.len() == 0 {
        Ok(Seq::empty())
    } else {
        match transliterated(s.drop_last()) {
            Err(c) => Err(c),
            Ok(p) => {
                let c = s.last();
                if ascii(c) {
                    Ok(p.push(c))
                } else {
                    match latex_of(c) {
                        Some(t) => Ok(p + seq!['{'] + t + seq!['}']),
                        None => Err(c),
                    }
                }
            },
        }
    }
}

/// Replaces each non-ASCII character by its LaTeX command in braces. A character that
/// the table does not know is an error, and leaves `input` as it was.
pub fn replace(input: &mut String) -> (r: Result<(), char>)
    ensures
        match transliterated(old(input)@) {
            Ok(t) => r is Ok && final(input)@ == t,
            Err(c) => r == Err::<(), char>(c) && final(input)@ == old(input)@,
        },
{
    let v = to_chars(input.as_str());
    let n = v.len();
    let mut out = String::new();
    let mut i: usize = 0;
    while i < n
        invariant
            n == v@.len(),
            v@ == input@,
            i <= n,
            transliterated(v@.take(i as int)) == Ok::<Seq<char>, char>(out@),
        decreases n - i,
    {
        let c = v[i];
        let ghost before = out@;
        assert(v@.take(i as int + 1).drop_last() =~= v@.take(i as int));
        assert(v@.take(i as int + 1).last() == c);
        if (c as u32) < 128 {
            push_char(&mut out, c);
        } else {
            match latex_lookup(c) {
                Some(t) => {
                    push_char(&mut out, '{');
                    out.append(t);
                    push_char(&mut out, '}');
                    assert(out@ =~= before + seq!['{'] + t@ + seq!['}']);
                },
                None => {
                    proof {
                        lemma_error_stays(v@, i as int + 1);
                    }
                    return Err(c);
                },
            }
        }
        i = i + 1;
    }
    assert(v@.take(n as int) =~= v@);
    *input = out;
    Ok(())
}

/// An unknown character in a prefix is the error of the whole text.
proof fn lemma_error_stays(s: Seq<char>, i: int)
    requires
        0 <= i <= s.len(),
        transliterated(s.take(i)) is Err,
    ensures
        transliterated(s) == transliterated(s.take(i)),
    decreases s.len() - i,
{
    if i < s.len() {
        assert(s.take(i + 1).drop_last() =~= s.take(i));
        lemma_error_stays(s, i + 1);
    } else {
        assert(s.take(i) =~= s);
    }
}

/// Every character of `t` is ASCII.
pub open spec fn all_ascii(t: Seq<char>) -> bool {
    forall|i: int| 0 <= i < t.len() ==> ascii(#[trigger] t[i])
}

proof fn lemma_part_0_ascii(c: char)
    ensures
        latex_part_0(c) matches Some(t) ==> all_ascii(t),
{
    reveal_strlit("~");
    reveal_strlit("\\textexclamdown");
    reveal_strlit("\\textcent");
    reveal_strlit("\\textsterling");
    reveal_strlit("\\textcurrency");
    reveal_strlit("\\textyen");
    reveal_strlit("\\textbrokenbar");
    reveal_strlit("\\textsection");
    reveal_strlit("\\textasciidieresis");
    reveal_strlit("\\textcopyright");
    reveal_strlit("\\textordfeminine");
    reveal_strlit("\\guillemotleft");
    reveal_strlit("\\textlnot");
    reveal_strlit("\\-");
    reveal_strlit("\\textregistered");
    reveal_strlit("\\textasciimacron");
    reveal_strlit("\\textdegree");
    reveal_strlit("\\ensuremath{\\pm}");
    reveal_strlit("\\texttwosuperior");
    reveal_strlit("\\textthreesuperior");
    reveal_strlit("\\textasciiacute");
    reveal_strlit("\\textmu");
    reveal_strlit("\\textparagraph");
    reveal_strlit("\\textperiodcentered");
    reveal_strlit("\\textonesuperior");
    reveal_strlit("\\textordmasculine");
    reveal_strlit("\\guillemotright");
    reveal_strlit("\\textonequarter");
    reveal_strlit("\\textonehalf");
    reveal_strlit("\\textthreequarters");
    reveal_strlit("\\textquestiondown");
    reveal_strlit("\\`A");
    reveal_strlit("\\'A");
    reveal_strlit("\\^A");
    reveal_strlit("\\~A");
    reveal_strlit("\\\"A");
    reveal_strlit("\\r{A}");
    reveal_strlit("\\AE");
    reveal_strlit("\\c{C}");
    reveal_strlit("\\`E");
    reveal_strlit("\\'E");
    reveal_strlit("\\^E");
    reveal_strlit("\\\"E");
    reveal_strlit("\\`I");
    reveal_strlit("\\'I");
    reveal_strlit("\\^I");
    reveal_strlit("\\\"I");
    reveal_strlit("\\DH");
    reveal_strlit("\\~N");
    reveal_strlit("\\`O");
    reveal_strlit("\\'O");
    reveal_strlit("\\^O");
    reveal_strlit("\\~O");
    reveal_strlit("\\\"O");
    reveal_strlit("\\texttimes");
    reveal_strlit("\\O");
    reveal_strlit("\\`U");
    reveal_strlit("\\'U");
    reveal_strlit("\\^U");
    reveal_strlit("\\\"U");
}

proof fn lemma_part_1_ascii(c: char)
    ensures
        latex_part_1(c) matches Some(t) ==> all_ascii(t),
{
    reveal_strlit("\\'Y");
    reveal_strlit("\\TH");
    reveal_strlit("\\ss");
    reveal_strlit("\\`a");
    reveal_strlit("\\'a");
    reveal_strlit("\\^a");
    reveal_strlit("\\~a");
    reveal_strlit("\\\"a");
    reveal_strlit("\\r{a}");
    reveal_strlit("\\ae");
    reveal_strlit("\\c{c}");
    reveal_strlit("\\`e");
    reveal_strlit("\\'e");
    reveal_strlit("\\^e");
    reveal_strlit("\\\"e");
    reveal_strlit("\\`i");
    reveal_strlit("\\'i");
    reveal_strlit("\\^i");
    reveal_strlit("\\\"i");
    reveal_strlit("\\dh");
    reveal_strlit("\\~n");
    reveal_strlit("\\`o");
    reveal_strlit("\\'o");
    reveal_strlit("\\^o");
    reveal_strlit("\\~o");
    reveal_strlit("\\\"o");
    reveal_strlit("\\textdiv");
    reveal_strlit("\\o");
    reveal_strlit("\\`u");
    reveal_strlit("\\'u");
    reveal_strlit("\\^u");
    reveal_strlit("\\\"u");
    reveal_strlit("\\'y");
    reveal_strlit("\\th");
    reveal_strlit("\\\"y");
    reveal_strlit("\\={A}");
    reveal_strlit("\\={a}");
    reveal_strlit("\\u{A}");
    reveal_strlit("\\u{a}");
    reveal_strlit("\\k{A}");
    reveal_strlit("\\k{a}");
    reveal_strlit("\\'C");
    reveal_strlit("\\'c");
    reveal_strlit("\\^{C}");
    reveal_strlit("\\^{c}");
    reveal_strlit("\\.{C}");
    reveal_strlit("\\.{c}");
    reveal_strlit("\\v{C}");
    reveal_strlit("\\v{c}");
    reveal_strlit("\\v{D}");
    reveal_strlit("\\v{d}");
    reveal_strlit("\\DJ");
    reveal_strlit("\\dj");
    reveal_strlit("\\={E}");
    reveal_strlit("\\={e}");
    reveal_strlit("\\u{E}");
    reveal_strlit("\\u{e}");
    reveal_strlit("\\.{E}");
    reveal_strlit("\\.{e}");
    reveal_strlit("\\k{E}");
}

proof fn lemma_part_2_ascii(c: char)
    ensures
        latex_part_2(c) matches Some(t) ==> all_ascii(t),
{
    reveal_strlit("\\k{e}");
    reveal_strlit("\\v{E}");
    reveal_strlit("\\v{e}");
    reveal_strlit("\\^{G}");
    reveal_strlit("\\^{g}");
    reveal_strlit("\\u{G}");
    reveal_strlit("\\u{g}");
    reveal_strlit("\\.{G}");
    reveal_strlit("\\.{g}");
    reveal_strlit("\\c{G}");
    reveal_strlit("\\c{g}");
    reveal_strlit("\\^{H}");
    reveal_strlit("\\^{h}");
    reveal_strlit("\\={H}");
    reveal_strlit("\\={h}");
    reveal_strlit("\\~{I}");
    reveal_strlit("\\~{i}");
    reveal_strlit("\\={I}");
    reveal_strlit("\\={i}");
    reveal_strlit("\\u{I}");
    reveal_strlit("\\u{i}");
    reveal_strlit("\\k{I}");
    reveal_strlit("\\k{i}");
    reveal_strlit("\\.I");
    reveal_strlit("\\i");
    reveal_strlit("\\IJ");
    reveal_strlit("\\ij");
    reveal_strlit("\\^{J}");
    reveal_strlit("\\^{j}");
    reveal_strlit("\\c{K}");
    reveal_strlit("\\c{k}");
    reveal_strlit("\\textsc{k}");
    reveal_strlit("\\'L");
    reveal_strlit("\\'l");
    reveal_strlit("\\c{L}");
    reveal_strlit("\\c{l}");
    reveal_strlit("\\v{L}");
    reveal_strlit("\\v{l}");
    reveal_strlit("\\.{L}");
    reveal_strlit("\\.{l}");
    reveal_strlit("\\L");
    reveal_strlit("\\l");
    reveal_strlit("\\'N");
    reveal_strlit("\\'n");
    reveal_strlit("\\c{N}");
    reveal_strlit("\\c{n}");
    reveal_strlit("\\v{N}");
    reveal_strlit("\\v{n}");
    reveal_strlit("\\nument{149}");
    reveal_strlit("\\NG");
    reveal_strlit("\\ng");
    reveal_strlit("\\={O}");
    reveal_strlit("\\={o}");
    reveal_strlit("\\u{O}");
    reveal_strlit("\\u{o}");
    reveal_strlit("\\H{O}");
    reveal_strlit("\\H{o}");
    reveal_strlit("\\OE");
    reveal_strlit("\\oe");
    reveal_strlit("\\'R");
}

proof fn lemma_part_3_ascii(c: char)
    ensures
        latex_part_3(c) matches Some(t) ==> all_ascii(t),
{
    reveal_strlit("\\'r");
    reveal_strlit("\\c{R}");
    reveal_strlit("\\c{r}");
    reveal_strlit("\\v{R}");
    reveal_strlit("\\v{r}");
    reveal_strlit("\\'S");
    reveal_strlit("\\'s");
    reveal_strlit("\\^{S}");
    reveal_strlit("\\^{s}");
    reveal_strlit("\\c{S}");
    reveal_strlit("\\c{s}");
    reveal_strlit("\\v{S}");
    reveal_strlit("\\v{s}");
    reveal_strlit("\\c{T}");
    reveal_strlit("\\c{t}");
    reveal_strlit("\\v{T}");
    reveal_strlit("\\v{t}");
    reveal_strlit("\\={T}");
    reveal_strlit("\\={t}");
    reveal_strlit("\\~{U}");
    reveal_strlit("\\~{u}");
    reveal_strlit("\\={U}");
    reveal_strlit("\\={u}");
    reveal_strlit("\\u{U}");
    reveal_strlit("\\u{u}");
    reveal_strlit("\\r{U}");
    reveal_strlit("\\r{u}");
    reveal_strlit("\\'{U}");
    reveal_strlit("\\'{u}");
    reveal_strlit("\\k{U}");
    reveal_strlit("\\k{u}");
    reveal_strlit("\\^{W}");
    reveal_strlit("\\^{w}");
    reveal_strlit("\\^{Y}");
    reveal_strlit("\\^{y}");
    reveal_strlit("\\\"Y");
    reveal_strlit("\\'Z");
    reveal_strlit("\\'z");
    reveal_strlit("\\.Z");
    reveal_strlit("\\.z");
    reveal_strlit("\\v{Z}");
    reveal_strlit("\\v{z}");
    reveal_strlit("\\textflorin");
    reveal_strlit("\\texthvlig");
    reveal_strlit("\\textnrleg");
    reveal_strlit("\\v{g}");
    reveal_strlit("\\'{g}");
    reveal_strlit("\\c{E}");
    reveal_strlit("\\c{e}");
    reveal_strlit("\\textschwa");
    reveal_strlit("\\varepsilon");
    reveal_strlit("\\textphi");
    reveal_strlit("\\textglotstop");
    reveal_strlit("\\textturnk");
    reveal_strlit("\\textsuperscript{w}");
    reveal_strlit("'");
    reveal_strlit("\\textasciicircum");
    reveal_strlit("\\textasciicaron");
    reveal_strlit("\\textasciibreve");
    reveal_strlit("\\textperiodcentered");
}

proof fn lemma_part_4_ascii(c: char)
    ensures
        latex_part_4(c) matches Some(t) ==> all_ascii(t),
{
    reveal_strlit("\\r{}");
    reveal_strlit("\\k{}");
    reveal_strlit("\\textasciitilde");
    reveal_strlit("\\textacutedbl");
    reveal_strlit("\\ensuremath{\\dot{}}");
    reveal_strlit("\\ensuremath{\\ddot{}}");
    reveal_strlit("\\'{}A");
    reveal_strlit("\\'{}E");
    reveal_strlit("\\'{}H");
    reveal_strlit("\\'{}I");
    reveal_strlit("\\'{}O");
    reveal_strlit("\\'{}Y");
    reveal_strlit("\\'{}\\ensuremath{\\Omega}");
    reveal_strlit("\\acute{\\ddot{\\iota}}");
    reveal_strlit("A");
    reveal_strlit("B");
    reveal_strlit("\\ensuremath{\\Gamma}");
    reveal_strlit("\\ensuremath{\\Delta}");
    reveal_strlit("E");
    reveal_strlit("Z");
    reveal_strlit("H");
    reveal_strlit("\\ensuremath{\\Theta}");
    reveal_strlit("I");
    reveal_strlit("K");
    reveal_strlit("\\ensuremath{\\Lambda}");
    reveal_strlit("M");
    reveal_strlit("N");
    reveal_strlit("\\ensuremath{\\Xi}");
    reveal_strlit("O");
    reveal_strlit("\\ensuremath{\\Pi}");
    reveal_strlit("P");
    reveal_strlit("\\ensuremath{\\Sigma}");
    reveal_strlit("T");
    reveal_strlit("\\ensuremath{\\Upsilon}");
    reveal_strlit("\\ensuremath{\\Phi}");
    reveal_strlit("X");
    reveal_strlit("\\ensuremath{\\Psi}");
    reveal_strlit("\\ensuremath{\\Omega}");
    reveal_strlit("\\ensuremath{\\ddot{I}}");
    reveal_strlit("\\ensuremath{\\ddot{Y}}");
    reveal_strlit("\\ensuremath{\\acute\\alpha}");
    reveal_strlit("\\ensuremath{\\acute\\epsilon}");
    reveal_strlit("\\ensuremath{\\acute\\eta}");
    reveal_strlit("\\ensuremath{\\acute\\iota}");
    reveal_strlit("\\ensuremath{\\acute{\\ddot{\\upsilon}}}");
    reveal_strlit("\\ensuremath{\\alpha}");
    reveal_strlit("\\ensuremath{\\beta}");
    reveal_strlit("\\ensuremath{\\gamma}");
    reveal_strlit("\\ensuremath{\\delta}");
    reveal_strlit("\\ensuremath{\\varepsilon}");
    reveal_strlit("\\ensuremath{\\zeta}");
    reveal_strlit("\\ensuremath{\\eta}");
    reveal_strlit("\\ensuremath{\\theta}");
    reveal_strlit("\\ensuremath{\\iota}");
    reveal_strlit("\\ensuremath{\\kappa}");
    reveal_strlit("\\ensuremath{\\lambda}");
    reveal_strlit("\\ensuremath{\\mu}");
    reveal_strlit("\\ensuremath{\\nu}");
    reveal_strlit("\\ensuremath{\\xi}");
    reveal_strlit("o");
}

proof fn lemma_part_5_ascii(c: char)
    ensures
        latex_part_5(c) matches Some(t) ==> all_ascii(t),
{
    reveal_strlit("\\ensuremath{\\pi}");
    reveal_strlit("\\ensuremath{\\rho}");
    reveal_strlit("\\ensuremath{\\varsigma}");
    reveal_strlit("\\ensuremath{\\sigma}");
    reveal_strlit("\\ensuremath{\\tau}");
    reveal_strlit("\\ensuremath{\\upsilon}");
    reveal_strlit("\\ensuremath{\\varphi}");
    reveal_strlit("\\ensuremath{\\chi}");
    reveal_strlit("\\ensuremath{\\psi}");
    reveal_strlit("\\ensuremath{\\omega}");
    reveal_strlit("\\ensuremath{\\ddot\\iota}");
    reveal_strlit("\\ensuremath{\\ddot{\\upsilon}}");
    reveal_strlit("\\'{o}");
    reveal_strlit("\\ensuremath{\\acute\\upsilon}");
    reveal_strlit("\\ensuremath{\\acute\\omega}");
    reveal_strlit("\\ensuremath{\\vartheta}");
    reveal_strlit("\\Upsilon");
    reveal_strlit("\\ensuremath{\\phi}");
    reveal_strlit("\\ensuremath{\\varpi}");
    reveal_strlit("\\ensuremath{\\varkappa}");
    reveal_strlit("\\ensuremath{\\varrho}");
    reveal_strlit("\\ensuremath{\\epsilon}");
    reveal_strlit("\\ensuremath{\\backepsilon}");
    reveal_strlit("\\`\\CYRE");
    reveal_strlit("\\CYRYO");
    reveal_strlit("\\CYRDJE");
    reveal_strlit("\\`\\CYRG");
    reveal_strlit("\\CYRIE");
    reveal_strlit("\\CYRDZE");
    reveal_strlit("\\CYRII");
    reveal_strlit("\\CYRYI");
    reveal_strlit("\\CYRJE");
    reveal_strlit("\\CYRLJE");
    reveal_strlit("\\CYRNJE");
    reveal_strlit("\\CYRTSHE");
    reveal_strlit("\\`\\CYRK");
    reveal_strlit("\\`\\CYRI");
    reveal_strlit("\\CYRUSHRT");
    reveal_strlit("\\CYRDZHE");
    reveal_strlit("\\CYRA");
    reveal_strlit("\\CYRB");
    reveal_strlit("\\CYRV");
    reveal_strlit("\\CYRG");
    reveal_strlit("\\CYRD");
    reveal_strlit("\\CYRE");
    reveal_strlit("\\CYRZH");
    reveal_strlit("\\CYRZ");
    reveal_strlit("\\CYRI");
    reveal_strlit("\\CYRISHRT");
    reveal_strlit("\\CYRK");
    reveal_strlit("\\CYRL");
    reveal_strlit("\\CYRM");
    reveal_strlit("\\CYRN");
    reveal_strlit("\\CYRO");
    reveal_strlit("\\CYRP");
    reveal_strlit("\\CYRR");
    reveal_strlit("\\CYRS");
    reveal_strlit("\\CYRT");
    reveal_strlit("\\CYRU");
    reveal_strlit("\\CYRF");
}

proof fn lemma_part_6_ascii(c: char)
    ensures
        latex_part_6(c) matches Some(t) ==> all_ascii(t),
{
    reveal_strlit("\\CYRH");
    reveal_strlit("\\CYRC");
    reveal_strlit("\\CYRCH");
    reveal_strlit("\\CYRSH");
    reveal_strlit("\\CYRSHCH");
    reveal_strlit("\\CYRHRDSN");
    reveal_strlit("\\CYRERY");
    reveal_strlit("\\CYRSFTSN");
    reveal_strlit("\\CYREREV");
    reveal_strlit("\\CYRYU");
    reveal_strlit("\\CYRYA");
    reveal_strlit("\\cyra");
    reveal_strlit("\\cyrb");
    reveal_strlit("\\cyrv");
    reveal_strlit("\\cyrg");
    reveal_strlit("\\cyrd");
    reveal_strlit("\\cyre");
    reveal_strlit("\\cyrzh");
    reveal_strlit("\\cyrz");
    reveal_strlit("\\cyri");
    reveal_strlit("\\cyrishrt");
    reveal_strlit("\\cyrk");
    reveal_strlit("\\cyrl");
    reveal_strlit("\\cyrm");
    reveal_strlit("\\cyrn");
    reveal_strlit("\\cyro");
    reveal_strlit("\\cyrp");
    reveal_strlit("\\cyrr");
    reveal_strlit("\\cyrs");
    reveal_strlit("\\cyrt");
    reveal_strlit("\\cyru");
    reveal_strlit("\\cyrf");
    reveal_strlit("\\cyrh");
    reveal_strlit("\\cyrc");
    reveal_strlit("\\cyrch");
    reveal_strlit("\\cyrsh");
    reveal_strlit("\\cyrshch");
    reveal_strlit("\\cyrhrdsn");
    reveal_strlit("\\cyrery");
    reveal_strlit("\\cyrsftsn");
    reveal_strlit("\\cyrerev");
    reveal_strlit("\\cyryu");
    reveal_strlit("\\cyrya");
    reveal_strlit("\\`\\cyre");
    reveal_strlit("\\cyryo");
    reveal_strlit("\\cyrdje");
    reveal_strlit("\\`\\cyrg");
    reveal_strlit("\\cyrie");
    reveal_strlit("\\cyrdze");
    reveal_strlit("\\cyrii");
    reveal_strlit("\\cyryi");
    reveal_strlit("\\cyrje");
    reveal_strlit("\\cyrlje");
    reveal_strlit("\\cyrnje");
    reveal_strlit("\\cyrtshe");
    reveal_strlit("\\`\\cyrk");
    reveal_strlit("\\`\\cyri");
    reveal_strlit("\\cyrushrt");
    reveal_strlit("\\cyrdzhe");
    reveal_strlit("\\cyrchar\\CYROMEGA");
}

proof fn lemma_part_7_ascii(c: char)
    ensures
        latex_part_7(c) matches Some(t) ==> all_ascii(t),
{
    reveal_strlit("\\cyrchar\\cyromega");
    reveal_strlit("\\CYRYAT");
    reveal_strlit("\\cyryat");
    reveal_strlit("\\cyrchar\\CYRIOTE");
    reveal_strlit("\\cyrchar\\cyriote");
    reveal_strlit("\\cyrchar\\CYRLYUS");
    reveal_strlit("\\cyrchar\\cyrlyus");
    reveal_strlit("\\cyrchar\\CYRIOTLYUS");
    reveal_strlit("\\cyrchar\\cyriotlyus");
    reveal_strlit("\\CYRBYUS");
    reveal_strlit("\\cyrbyus");
    reveal_strlit("\\cyrchar\\CYRIOTBYUS");
    reveal_strlit("\\cyrchar\\cyriotbyus");
    reveal_strlit("\\cyrchar\\CYRKSI");
    reveal_strlit("\\cyrchar\\cyrksi");
    reveal_strlit("\\cyrchar\\CYRPSI");
    reveal_strlit("\\cyrchar\\cyrpsi");
    reveal_strlit("\\CYRFITA");
    reveal_strlit("\\cyrfita");
    reveal_strlit("\\CYRIZH");
    reveal_strlit("\\cyrizh");
    reveal_strlit("\\C\\CYRIZH");
    reveal_strlit("\\C\\cyrizh");
    reveal_strlit("\\cyrchar\\CYRUK");
    reveal_strlit("\\cyrchar\\cyruk");
    reveal_strlit("\\cyrchar\\CYROMEGARND");
    reveal_strlit("\\cyrchar\\cyromegarnd");
    reveal_strlit("\\cyrchar\\CYROMEGATITLO");
    reveal_strlit("\\cyrchar\\cyromegatitlo");
    reveal_strlit("\\cyrchar\\CYROT");
    reveal_strlit("\\cyrchar\\cyrot");
    reveal_strlit("\\cyrchar\\CYRKOPPA");
    reveal_strlit("\\cyrchar\\cyrkoppa");
    reveal_strlit("\\cyrchar\\cyrthousands");
    reveal_strlit("\\cyrchar\\cyrhundredthousands");
    reveal_strlit("\\cyrchar\\cyrmillions");
    reveal_strlit("\\CYRSEMISFTSN");
    reveal_strlit("\\cyrsemisftsn");
    reveal_strlit("\\CYRRTICK");
    reveal_strlit("\\cyrrtick");
    reveal_strlit("\\CYRGUP");
    reveal_strlit("\\cyrgup");
    reveal_strlit("\\CYRGHCRS");
    reveal_strlit("\\cyrghcrs");
    reveal_strlit("\\CYRGHK");
    reveal_strlit("\\cyrghk");
    reveal_strlit("\\CYRZHDSC");
    reveal_strlit("\\cyrzhdsc");
    reveal_strlit("\\CYRZDSC");
    reveal_strlit("\\cyrzdsc");
    reveal_strlit("\\CYRKDSC");
    reveal_strlit("\\cyrkdsc");
    reveal_strlit("\\CYRKVCRS");
    reveal_strlit("\\cyrkvcrs");
    reveal_strlit("\\CYRKHCRS");
    reveal_strlit("\\cyrkhcrs");
    reveal_strlit("\\CYRKBEAK");
    reveal_strlit("\\cyrkbeak");
    reveal_strlit("\\CYRNDSC");
    reveal_strlit("\\cyrndsc");
}

proof fn lemma_part_8_ascii(c: char)
    ensures
        latex_part_8(c) matches Some(t) ==> all_ascii(t),
{
    reveal_strlit("\\CYRNG");
    reveal_strlit("\\cyrng");
    reveal_strlit("\\CYRPHK");
    reveal_strlit("\\cyrphk");
    reveal_strlit("\\CYRABHHA");
    reveal_strlit("\\cyrabhha");
    reveal_strlit("\\CYRSDSC");
    reveal_strlit("\\cyrsdsc");
    reveal_strlit("\\CYRTDSC");
    reveal_strlit("\\cyrtdsc");
    reveal_strlit("\\CYRY");
    reveal_strlit("\\cyry");
    reveal_strlit("\\CYRYHCRS");
    reveal_strlit("\\cyryhcrs");
    reveal_strlit("\\CYRHDSC");
    reveal_strlit("\\cyrhdsc");
    reveal_strlit("\\CYRTETSE");
    reveal_strlit("\\cyrtetse");
    reveal_strlit("\\CYRCHRDSC");
    reveal_strlit("\\cyrchrdsc");
    reveal_strlit("\\CYRCHVCRS");
    reveal_strlit("\\cyrchvcrs");
    reveal_strlit("\\CYRSHHA");
    reveal_strlit("\\cyrshha");
    reveal_strlit("\\CYRABHCH");
    reveal_strlit("\\cyrabhch");
    reveal_strlit("\\CYRABHCHDSC");
    reveal_strlit("\\cyrabhchdsc");
    reveal_strlit("\\CYRpalochka");
    reveal_strlit("\\U\\CYRZH");
    reveal_strlit("\\U\\cyrzh");
    reveal_strlit("\\CYRKHK");
    reveal_strlit("\\cyrkhk");
    reveal_strlit("\\CYRLDSC");
    reveal_strlit("\\cyrldsc");
    reveal_strlit("\\CYRNHK");
    reveal_strlit("\\cyrnhk");
    reveal_strlit("\\CYRCHLDSC");
    reveal_strlit("\\cyrchldsc");
    reveal_strlit("\\CYRMDSC");
    reveal_strlit("\\cyrmdsc");
    reveal_strlit("\\U\\CYRA");
    reveal_strlit("\\U\\cyra");
    reveal_strlit("\\\"\\CYRA");
    reveal_strlit("\\\"\\cyra");
    reveal_strlit("\\CYRAE");
    reveal_strlit("\\cyrae");
    reveal_strlit("\\U\\CYRE");
    reveal_strlit("\\U\\cyre");
    reveal_strlit("\\CYRSCHWA");
    reveal_strlit("\\cyrschwa");
    reveal_strlit("\\\"\\CYRSCHWA");
    reveal_strlit("\\\"\\cyrschwa");
    reveal_strlit("\\\"\\CYRZH");
    reveal_strlit("\\\"\\cyrzh");
    reveal_strlit("\\\"\\CYRZ");
    reveal_strlit("\\\"\\cyrz");
    reveal_strlit("\\CYRABHDZE");
    reveal_strlit("\\cyrabhdze");
    reveal_strlit("\\=\\CYRI");
}

proof fn lemma_part_9_ascii(c: char)
    ensures
        latex_part_9(c) matches Some(t) ==> all_ascii(t),
{
    reveal_strlit("\\=\\cyri");
    reveal_strlit("\\\"\\CYRI");
    reveal_strlit("\\\"\\cyri");
    reveal_strlit("\\\"\\CYRO");
    reveal_strlit("\\\"\\cyro");
    reveal_strlit("\\CYROTLD");
    reveal_strlit("\\cyrotld");
    reveal_strlit("\\\"\\CYREREV");
    reveal_strlit("\\\"\\cyrerev");
    reveal_strlit("\\=\\CYRU");
    reveal_strlit("\\=\\cyru");
    reveal_strlit("\\\"\\CYRU");
    reveal_strlit("\\\"\\cyru");
    reveal_strlit("\\H\\CYRU");
    reveal_strlit("\\H\\cyru");
    reveal_strlit("\\\"\\CYRCH");
    reveal_strlit("\\\"\\cyrch");
    reveal_strlit("\\CYRGDSC");
    reveal_strlit("\\cyrgdsc");
    reveal_strlit("\\\"\\CYRERY");
    reveal_strlit("\\\"\\cyrery");
    reveal_strlit("\\CYRGDSCHCRS");
    reveal_strlit("\\cyrgdschcrs");
    reveal_strlit("\\CYRHHK");
    reveal_strlit("\\cyrhhk");
    reveal_strlit("\\CYRHHCRS");
    reveal_strlit("\\cyrhhcrs");
    reveal_strlit("\\textbaht");
    reveal_strlit("\\enskip");
    reveal_strlit("\\quad");
    reveal_strlit("\\enskip");
    reveal_strlit("\\quad");
    reveal_strlit("\\hspace{0.33em}");
    reveal_strlit("\\hspace{0.25em}");
    reveal_strlit("\\hspace{0.167em}");
    reveal_strlit("~");
    reveal_strlit("\\;");
    reveal_strlit("\\,");
    reveal_strlit("\\hspace{1pt}");
    reveal_strlit("\\textcompwordmark");
    reveal_strlit("-");
    reveal_strlit("\\nobreakdash-");
    reveal_strlit("-");
    reveal_strlit("\\textendash");
    reveal_strlit("\\textemdash");
    reveal_strlit("\\textemdash");
    reveal_strlit("\\ensuremath{\\Vert}");
    reveal_strlit("\\textquoteleft");
    reveal_strlit("\\textquoteright");
    reveal_strlit("\\quotesinglbase");
    reveal_strlit("\\textquotedblleft");
    reveal_strlit("\\textquotedblright");
    reveal_strlit("\\quotedblbase");
    reveal_strlit("\\textdagger");
    reveal_strlit("\\textdaggerdbl");
    reveal_strlit("\\textbullet");
    reveal_strlit(".");
    reveal_strlit("..");
    reveal_strlit("\\textellipsis");
    reveal_strlit("\\textperthousand");
}

proof fn lemma_part_10_ascii(c: char)
    ensures
        latex_part_10(c) matches Some(t) ==> all_ascii(t),
{
    reveal_strlit("\\textpertenthousand");
    reveal_strlit("'");
    reveal_strlit("''");
    reveal_strlit("'''");
    reveal_strlit("\\ensuremath{\\backprime}");
    reveal_strlit("\\guilsinglleft");
    reveal_strlit("\\guilsinglright");
    reveal_strlit("\\textreferencemark");
    reveal_strlit("\\textinterrobang");
    reveal_strlit("\\textfractionsolidus");
    reveal_strlit("\\textasteriskcentered");
    reveal_strlit("\\textdiscount");
    reveal_strlit("''''");
    reveal_strlit("\\hspace{0.22em}");
    reveal_strlit("\\nolinebreak");
    reveal_strlit("");
    reveal_strlit("\\textcolonmonetary");
    reveal_strlit("\\textlira");
    reveal_strlit("\\textnaira");
    reveal_strlit("\\textwon");
    reveal_strlit("\\textdong");
    reveal_strlit("\\texteuro");
    reveal_strlit("\\textpeso");
    reveal_strlit("\\ensuremath{\\mathbb{C}}");
    reveal_strlit("\\textcelsius");
    reveal_strlit("\\ensuremath{^\\circ}F");
    reveal_strlit("\\ensuremath{g}");
    reveal_strlit("\\ensuremath{\\mathscr{H}}");
    reveal_strlit("\\ensuremath{\\mathfrak{H}}");
    reveal_strlit("\\ensuremath{\\mathbb{H}}");
    reveal_strlit("\\ensuremath{h}");
    reveal_strlit("\\ensuremath{\\hbar}");
    reveal_strlit("\\ensuremath{\\mathscr{I}}");
    reveal_strlit("\\ensuremath{\\mathfrak{I}}");
    reveal_strlit("\\ensuremath{\\mathscr{L}}");
    reveal_strlit("\\ensuremath{\\ell}");
    reveal_strlit("\\ensuremath{\\mathbb{N}}");
    reveal_strlit("\\textnumero");
    reveal_strlit("\\textcircledP");
    reveal_strlit("\\ensuremath{\\wp}");
    reveal_strlit("\\ensuremath{\\mathbb{P}}");
    reveal_strlit("\\ensuremath{\\mathbb{Q}}");
    reveal_strlit("\\ensuremath{\\mathscr{R}}");
    reveal_strlit("\\ensuremath{\\mathfrak{R}}");
    reveal_strlit("\\ensuremath{\\mathbb{R}}");
    reveal_strlit("\\textrecipe");
    reveal_strlit("\\textservicemark");
    reveal_strlit("\\texttrademark");
    reveal_strlit("\\ensuremath{\\mathbb{Z}}");
    reveal_strlit("\\textohm");
    reveal_strlit("\\textmho");
    reveal_strlit("\\ensuremath{\\mathfrak{Z}}");
    reveal_strlit("K");
    reveal_strlit("\\r{A}");
    reveal_strlit("\\ensuremath{\\mathscr{B}}");
    reveal_strlit("\\ensuremath{\\mathfrak{C}}");
    reveal_strlit("\\textestimated");
    reveal_strlit("\\ensuremath{e}");
    reveal_strlit("\\ensuremath{\\mathscr{E}}");
    reveal_strlit("\\ensuremath{\\mathscr{F}}");
}

proof fn lemma_part_11_ascii(c: char)
    ensures
        latex_part_11(c) matches Some(t) ==> all_ascii(t),
{
    reveal_strlit("\\ensuremath{\\mathscr{M}}");
    reveal_strlit("\\ensuremath{o}");
    reveal_strlit("\\ensuremath{\\aleph}");
    reveal_strlit("\\ensuremath{\\beth}");
    reveal_strlit("\\ensuremath{\\gimel}");
    reveal_strlit("\\ensuremath{\\daleth}");
    reveal_strlit("\\textfrac{1}{3}");
    reveal_strlit("\\textfrac{2}{3}");
    reveal_strlit("\\textfrac{1}{5}");
    reveal_strlit("\\textfrac{2}{5}");
    reveal_strlit("\\textfrac{3}{5}");
    reveal_strlit("\\textfrac{4}{5}");
    reveal_strlit("\\textfrac{1}{6}");
    reveal_strlit("\\textfrac{5}{6}");
    reveal_strlit("\\textfrac{1}{8}");
    reveal_strlit("\\textfrac{3}{8}");
    reveal_strlit("\\textfrac{5}{8}");
    reveal_strlit("\\textfrac{7}{8}");
    reveal_strlit("\\textleftarrow");
    reveal_strlit("\\textuparrow");
    reveal_strlit("\\textrightarrow");
    reveal_strlit("\\textdownarrow");
    reveal_strlit("\\ensuremath{\\leftrightarrow}");
    reveal_strlit("\\ensuremath{\\updownarrow}");
    reveal_strlit("\\ensuremath{\\nwarrow}");
    reveal_strlit("\\ensuremath{\\nearrow}");
    reveal_strlit("\\ensuremath{\\searrow}");
    reveal_strlit("\\ensuremath{\\swarrow}");
    reveal_strlit("\\ensuremath{\\nleftarrow}");
    reveal_strlit("\\ensuremath{\\nrightarrow}");
    reveal_strlit("\\ensuremath{\\arrowwaveleft}");
    reveal_strlit("\\ensuremath{\\arrowwaveright}");
    reveal_strlit("\\ensuremath{\\twoheadleftarrow}");
    reveal_strlit("\\ensuremath{\\twoheadrightarrow}");
    reveal_strlit("\\ensuremath{\\leftarrowtail}");
    reveal_strlit("\\ensuremath{\\rightarrowtail}");
    reveal_strlit("\\ensuremath{\\mapsto}");
    reveal_strlit("\\ensuremath{\\hookleftarrow}");
    reveal_strlit("\\ensuremath{\\hookrightarrow}");
    reveal_strlit("\\ensuremath{\\looparrowleft}");
    reveal_strlit("\\ensuremath{\\looparrowright}");
    reveal_strlit("\\ensuremath{\\leftrightsquigarrow}");
    reveal_strlit("\\ensuremath{\\nleftrightarrow}");
    reveal_strlit("\\ensuremath{\\Lsh}");
    reveal_strlit("\\ensuremath{\\Rsh}");
    reveal_strlit("\\ensuremath{\\curvearrowleft}");
    reveal_strlit("\\ensuremath{\\curvearrowright}");
    reveal_strlit("\\ensuremath{\\circlearrowleft}");
    reveal_strlit("\\ensuremath{\\circlearrowright}");
    reveal_strlit("\\ensuremath{\\leftharpoonup}");
    reveal_strlit("\\ensuremath{\\leftharpoondown}");
    reveal_strlit("\\ensuremath{\\upharpoonright}");
    reveal_strlit("\\ensuremath{\\upharpoonleft}");
    reveal_strlit("\\ensuremath{\\rightharpoonup}");
    reveal_strlit("\\ensuremath{\\rightharpoondown}");
    reveal_strlit("\\ensuremath{\\downharpoonright}");
    reveal_strlit("\\ensuremath{\\downharpoonleft}");
    reveal_strlit("\\ensuremath{\\rightleftarrows}");
    reveal_strlit("\\ensuremath{\\dblarrowupdown}");
    reveal_strlit("\\ensuremath{\\leftrightarrows}");
}

proof fn lemma_part_12_ascii(c: char)
    ensures
        latex_part_12(c) matches Some(t) ==> all_ascii(t),
{
    reveal_strlit("\\ensuremath{\\leftleftarrows}");
    reveal_strlit("\\ensuremath{\\upuparrows}");
    reveal_strlit("\\ensuremath{\\rightrightarrows}");
    reveal_strlit("\\ensuremath{\\downdownarrows}");
    reveal_strlit("\\ensuremath{\\leftrightharpoons}");
    reveal_strlit("\\ensuremath{\\rightleftharpoons}");
    reveal_strlit("\\ensuremath{\\nLeftarrow}");
    reveal_strlit("\\ensuremath{\\nLeftrightarrow}");
    reveal_strlit("\\ensuremath{\\nRightarrow}");
    reveal_strlit("\\ensuremath{\\Leftarrow}");
    reveal_strlit("\\ensuremath{\\Uparrow}");
    reveal_strlit("\\ensuremath{\\Rightarrow}");
    reveal_strlit("\\ensuremath{\\Downarrow}");
    reveal_strlit("\\ensuremath{\\Leftrightarrow}");
    reveal_strlit("\\ensuremath{\\Updownarrow}");
    reveal_strlit("\\ensuremath{\\Lleftarrow}");
    reveal_strlit("\\ensuremath{\\Rrightarrow}");
    reveal_strlit("\\ensuremath{\\rightsquigarrow}");
    reveal_strlit("\\ensuremath{\\DownArrowUpArrow}");
    reveal_strlit("\\ensuremath{\\forall}");
    reveal_strlit("\\ensuremath{\\complement}");
    reveal_strlit("\\ensuremath{\\partial}");
    reveal_strlit("\\ensuremath{\\exists}");
    reveal_strlit("\\ensuremath{\\nexists}");
    reveal_strlit("\\ensuremath{\\varnothing}");
    reveal_strlit("\\ensuremath{\\Delta}");
    reveal_strlit("\\ensuremath{\\nabla}");
    reveal_strlit("\\ensuremath{\\in}");
    reveal_strlit("\\ensuremath{\\notin}");
    reveal_strlit("\\ensuremath{\\in}");
    reveal_strlit("\\ensuremath{\\ni}");
    reveal_strlit("\\ensuremath{\\not\\ni}");
    reveal_strlit("\\ensuremath{\\ni}");
    reveal_strlit("\\ensuremath{\\blacksquare}");
    reveal_strlit("\\ensuremath{\\prod}");
    reveal_strlit("\\ensuremath{\\coprod}");
    reveal_strlit("\\ensuremath{\\sum}");
    reveal_strlit("\\ensuremath{-}");
    reveal_strlit("\\ensuremath{\\mp}");
    reveal_strlit("\\ensuremath{\\dotplus}");
    reveal_strlit("\\ensuremath{/}");
    reveal_strlit("\\ensuremath{\\smallsetminus}");
    reveal_strlit("\\ensuremath{*}");
    reveal_strlit("\\ensuremath{\\circ}");
    reveal_strlit("\\ensuremath{\\bullet}");
    reveal_strlit("\\ensuremath{\\sqrt{}}");
    reveal_strlit("\\ensuremath{\\sqrt[3]{}}");
    reveal_strlit("\\ensuremath{\\sqrt[4]{}}");
    reveal_strlit("\\ensuremath{\\propto}");
    reveal_strlit("\\ensuremath{\\infty}");
    reveal_strlit("\\ensuremath{\\rightangle}");
    reveal_strlit("\\ensuremath{\\angle}");
    reveal_strlit("\\ensuremath{\\measuredangle}");
    reveal_strlit("\\ensuremath{\\sphericalangle}");
    reveal_strlit("\\ensuremath{\\mid}");
    reveal_strlit("\\ensuremath{\\nmid}");
    reveal_strlit("\\ensuremath{\\parallel}");
    reveal_strlit("\\ensuremath{\\nparallel}");
    reveal_strlit("\\ensuremath{\\wedge}");
    reveal_strlit("\\ensuremath{\\vee}");
}

proof fn lemma_part_13_ascii(c: char)
    ensures
        latex_part_13(c) matches Some(t) ==> all_ascii(t),
{
    reveal_strlit("\\ensuremath{\\cap}");
    reveal_strlit("\\ensuremath{\\cup}");
    reveal_strlit("\\ensuremath{\\int}");
    reveal_strlit("\\ensuremath{\\iint}");
    reveal_strlit("\\ensuremath{\\iiint}");
    reveal_strlit("\\ensuremath{\\oint}");
    reveal_strlit("\\ensuremath{\\surfintegral}");
    reveal_strlit("\\ensuremath{\\volintegral}");
    reveal_strlit("\\ensuremath{\\clwintegral}");
    reveal_strlit("\\ensuremath{\\therefore}");
    reveal_strlit("\\ensuremath{\\because}");
    reveal_strlit("\\ensuremath{:}");
    reveal_strlit("\\ensuremath{::}");
    reveal_strlit("\\ensuremath{\\mathbin{{:}\\!\\!{-}\\!\\!{:}}}");
    reveal_strlit("\\ensuremath{\\homothetic}");
    reveal_strlit("\\ensuremath{\\sim}");
    reveal_strlit("\\ensuremath{\\backsim}");
    reveal_strlit("\\ensuremath{\\lazysinv}");
    reveal_strlit("\\ensuremath{\\wr}");
    reveal_strlit("\\ensuremath{\\not\\sim}");
    reveal_strlit("\\ensuremath{\\simeq}");
    reveal_strlit("\\ensuremath{\\not\\simeq}");
    reveal_strlit("\\ensuremath{\\cong}");
    reveal_strlit("\\ensuremath{\\approxnotequal}");
    reveal_strlit("\\ensuremath{\\not\\cong}");
    reveal_strlit("\\ensuremath{\\approx}");
    reveal_strlit("\\ensuremath{\\not\\approx}");
    reveal_strlit("\\ensuremath{\\approxeq}");
    reveal_strlit("\\ensuremath{\\tildetrpl}");
    reveal_strlit("\\ensuremath{\\allequal}");
    reveal_strlit("\\ensuremath{\\asymp}");
    reveal_strlit("\\ensuremath{\\Bumpeq}");
    reveal_strlit("\\ensuremath{\\bumpeq}");
    reveal_strlit("\\ensuremath{\\doteq}");
    reveal_strlit("\\ensuremath{\\doteqdot}");
    reveal_strlit("\\ensuremath{\\fallingdotseq}");
    reveal_strlit("\\ensuremath{\\risingdotseq}");
    reveal_strlit("\\ensuremath{:=}");
    reveal_strlit("\\ensuremath{=:}");
    reveal_strlit("\\ensuremath{\\eqcirc}");
    reveal_strlit("\\ensuremath{\\circeq}");
    reveal_strlit("\\ensuremath{\\estimates}");
    reveal_strlit("\\ensuremath{\\starequal}");
    reveal_strlit("\\ensuremath{\\triangleq}");
    reveal_strlit("\\ensuremath{\\neq}");
    reveal_strlit("\\ensuremath{\\equiv}");
    reveal_strlit("\\ensuremath{\\not\\equiv}");
    reveal_strlit("\\ensuremath{\\leq}");
    reveal_strlit("\\ensuremath{\\geq}");
    reveal_strlit("\\ensuremath{\\leqq}");
    reveal_strlit("\\ensuremath{\\geqq}");
    reveal_strlit("\\ensuremath{\\lneqq}");
    reveal_strlit("\\ensuremath{\\gneqq}");
    reveal_strlit("\\ensuremath{\\ll}");
    reveal_strlit("\\ensuremath{\\gg}");
    reveal_strlit("\\ensuremath{\\between}");
    reveal_strlit("\\ensuremath{\\not\\kern-0.3em\\times}");
    reveal_strlit("\\ensuremath{\\nless}");
    reveal_strlit("\\ensuremath{\\ngtr}");
    reveal_strlit("\\ensuremath{\\nleq}");
}

proof fn lemma_part_14_ascii(c: char)
    ensures
        latex_part_14(c) matches Some(t) ==> all_ascii(t),
{
    reveal_strlit("\\ensuremath{\\ngeq}");
    reveal_strlit("\\ensuremath{\\lesssim}");
    reveal_strlit("\\ensuremath{\\gtrsim}");
    reveal_strlit("\\ensuremath{\\not\\lesssim}");
    reveal_strlit("\\ensuremath{\\not\\gtrsim}");
    reveal_strlit("\\ensuremath{\\lessgtr}");
    reveal_strlit("\\ensuremath{\\gtrless}");
    reveal_strlit("\\ensuremath{\\notlessgreater}");
    reveal_strlit("\\ensuremath{\\notgreaterless}");
    reveal_strlit("\\ensuremath{\\prec}");
    reveal_strlit("\\ensuremath{\\succ}");
    reveal_strlit("\\ensuremath{\\preceq}");
    reveal_strlit("\\ensuremath{\\succeq}");
    reveal_strlit("\\ensuremath{\\precsim}");
    reveal_strlit("\\ensuremath{\\succsim}");
    reveal_strlit("\\ensuremath{\\nprec}");
    reveal_strlit("\\ensuremath{\\nsucc}");
    reveal_strlit("\\ensuremath{\\subset}");
    reveal_strlit("\\ensuremath{\\supset}");
    reveal_strlit("\\ensuremath{\\not\\subset}");
    reveal_strlit("\\ensuremath{\\not\\supset}");
    reveal_strlit("\\ensuremath{\\subseteq}");
    reveal_strlit("\\ensuremath{\\supseteq}");
    reveal_strlit("\\ensuremath{\\nsubseteq}");
    reveal_strlit("\\ensuremath{\\nsupseteq}");
    reveal_strlit("\\ensuremath{\\subsetneq}");
    reveal_strlit("\\ensuremath{\\supsetneq}");
    reveal_strlit("\\ensuremath{\\uplus}");
    reveal_strlit("\\ensuremath{\\sqsubset}");
    reveal_strlit("\\ensuremath{\\sqsupset}");
    reveal_strlit("\\ensuremath{\\sqsubseteq}");
    reveal_strlit("\\ensuremath{\\sqsupseteq}");
    reveal_strlit("\\ensuremath{\\sqcap}");
    reveal_strlit("\\ensuremath{\\sqcup}");
    reveal_strlit("\\ensuremath{\\oplus}");
    reveal_strlit("\\ensuremath{\\ominus}");
    reveal_strlit("\\ensuremath{\\otimes}");
    reveal_strlit("\\ensuremath{\\oslash}");
    reveal_strlit("\\ensuremath{\\odot}");
    reveal_strlit("\\ensuremath{\\circledcirc}");
    reveal_strlit("\\ensuremath{\\circledast}");
    reveal_strlit("\\ensuremath{\\circleddash}");
    reveal_strlit("\\ensuremath{\\boxplus}");
    reveal_strlit("\\ensuremath{\\boxminus}");
    reveal_strlit("\\ensuremath{\\boxtimes}");
    reveal_strlit("\\ensuremath{\\boxdot}");
    reveal_strlit("\\ensuremath{\\vdash}");
    reveal_strlit("\\ensuremath{\\dashv}");
    reveal_strlit("\\ensuremath{\\top}");
    reveal_strlit("\\ensuremath{\\perp}");
    reveal_strlit("\\ensuremath{\\truestate}");
    reveal_strlit("\\ensuremath{\\forcesextra}");
    reveal_strlit("\\ensuremath{\\Vdash}");
    reveal_strlit("\\ensuremath{\\Vvdash}");
    reveal_strlit("\\ensuremath{\\VDash}");
    reveal_strlit("\\ensuremath{\\nvdash}");
    reveal_strlit("\\ensuremath{\\nvDash}");
    reveal_strlit("\\ensuremath{\\nVdash}");
    reveal_strlit("\\ensuremath{\\nVDash}");
    reveal_strlit("\\ensuremath{\\vartriangleleft}");
}

proof fn lemma_part_15_ascii(c: char)
    ensures
        latex_part_15(c) matches Some(t) ==> all_ascii(t),
{
    reveal_strlit("\\ensuremath{\\vartriangleright}");
    reveal_strlit("\\ensuremath{\\trianglelefteq}");
    reveal_strlit("\\ensuremath{\\trianglerighteq}");
    reveal_strlit("\\ensuremath{\\original}");
    reveal_strlit("\\ensuremath{\\image}");
    reveal_strlit("\\ensuremath{\\multimap}");
    reveal_strlit("\\ensuremath{\\hermitconjmatrix}");
    reveal_strlit("\\ensuremath{\\intercal}");
    reveal_strlit("\\ensuremath{\\veebar}");
    reveal_strlit("\\ensuremath{\\rightanglearc}");
    reveal_strlit("\\ensuremath{\\bigwedge}");
    reveal_strlit("\\ensuremath{\\bigvee}");
    reveal_strlit("\\ensuremath{\\bigcap}");
    reveal_strlit("\\ensuremath{\\bigcup}");
    reveal_strlit("\\ensuremath{\\diamond}");
    reveal_strlit("\\ensuremath{\\cdot}");
    reveal_strlit("\\ensuremath{\\star}");
    reveal_strlit("\\ensuremath{\\divideontimes}");
    reveal_strlit("\\ensuremath{\\bowtie}");
    reveal_strlit("\\ensuremath{\\ltimes}");
    reveal_strlit("\\ensuremath{\\rtimes}");
    reveal_strlit("\\ensuremath{\\leftthreetimes}");
    reveal_strlit("\\ensuremath{\\rightthreetimes}");
    reveal_strlit("\\ensuremath{\\backsimeq}");
    reveal_strlit("\\ensuremath{\\curlyvee}");
    reveal_strlit("\\ensuremath{\\curlywedge}");
    reveal_strlit("\\ensuremath{\\Subset}");
    reveal_strlit("\\ensuremath{\\Supset}");
    reveal_strlit("\\ensuremath{\\Cap}");
    reveal_strlit("\\ensuremath{\\Cup}");
    reveal_strlit("\\ensuremath{\\pitchfork}");
    reveal_strlit("\\ensuremath{\\lessdot}");
    reveal_strlit("\\ensuremath{\\gtrdot}");
    reveal_strlit("\\ensuremath{\\verymuchless}");
    reveal_strlit("\\ensuremath{\\verymuchgreater}");
    reveal_strlit("\\ensuremath{\\lesseqgtr}");
    reveal_strlit("\\ensuremath{\\gtreqless}");
    reveal_strlit("\\ensuremath{\\curlyeqprec}");
    reveal_strlit("\\ensuremath{\\curlyeqsucc}");
    reveal_strlit("\\ensuremath{\\not\\sqsubseteq}");
    reveal_strlit("\\ensuremath{\\not\\sqsupseteq}");
    reveal_strlit("\\ensuremath{\\lnsim}");
    reveal_strlit("\\ensuremath{\\gnsim}");
    reveal_strlit("\\ensuremath{\\precedesnotsimilar}");
    reveal_strlit("\\ensuremath{\\succnsim}");
    reveal_strlit("\\ensuremath{\\ntriangleleft}");
    reveal_strlit("\\ensuremath{\\ntriangleright}");
    reveal_strlit("\\ensuremath{\\ntrianglelefteq}");
    reveal_strlit("\\ensuremath{\\ntrianglerighteq}");
    reveal_strlit("\\ensuremath{\\vdots}");
    reveal_strlit("\\ensuremath{\\cdots}");
    reveal_strlit("\\ensuremath{\\udots}");
    reveal_strlit("\\ensuremath{\\ddots}");
    reveal_strlit("\\ensuremath{\\barwedge}");
    reveal_strlit("\\ensuremath{\\varperspcorrespond}");
    reveal_strlit("\\ensuremath{\\lceil}");
    reveal_strlit("\\ensuremath{\\rceil}");
    reveal_strlit("\\ensuremath{\\lfloor}");
    reveal_strlit("\\ensuremath{\\rfloor}");
    reveal_strlit("\\ensuremath{\\recorder}");
}

proof fn lemma_part_16_ascii(c: char)
    ensures
        latex_part_16(c) matches Some(t) ==> all_ascii(t),
{
    reveal_strlit("\\ensuremath{\\mathchar\"2208}");
    reveal_strlit("\\ensuremath{\\ulcorner}");
    reveal_strlit("\\ensuremath{\\urcorner}");
    reveal_strlit("\\ensuremath{\\llcorner}");
    reveal_strlit("\\ensuremath{\\lrcorner}");
    reveal_strlit("\\ensuremath{\\frown}");
    reveal_strlit("\\ensuremath{\\smile}");
    reveal_strlit("\\textlangle");
    reveal_strlit("\\textrangle");
    reveal_strlit("\\ensuremath{\\lmoustache}");
    reveal_strlit("\\ensuremath{\\rmoustache}");
    reveal_strlit("\\textblank");
    reveal_strlit("\\textvisiblespace");
    reveal_strlit("\\ensuremath{\\blacksquare}");
    reveal_strlit("\\ensuremath{\\square}");
    reveal_strlit("{\\small\\ensuremath{\\blacksquare}}");
    reveal_strlit("\\fbox{~~}");
    reveal_strlit("\\ensuremath{\\bigtriangleup}");
    reveal_strlit("\\ensuremath{\\blacktriangle}");
    reveal_strlit("\\ensuremath{\\vartriangle}");
    reveal_strlit("\\ensuremath{\\blacktriangleright}");
    reveal_strlit("\\ensuremath{\\triangleright}");
    reveal_strlit("\\ensuremath{\\bigtriangledown}");
    reveal_strlit("\\ensuremath{\\blacktriangledown}");
    reveal_strlit("\\ensuremath{\\triangledown}");
    reveal_strlit("\\ensuremath{\\blacktriangleleft}");
    reveal_strlit("\\ensuremath{\\triangleleft}");
    reveal_strlit("\\ensuremath{\\lozenge}");
    reveal_strlit("\\ensuremath{\\bigcirc}");
    reveal_strlit("\\textopenbullet");
    reveal_strlit("\\textbigcircle");
    reveal_strlit("\\ensuremath{\\diamond}");
    reveal_strlit("\\quarternote");
    reveal_strlit("\\textmusicalnote");
    reveal_strlit("\\flat");
    reveal_strlit("\\natural");
    reveal_strlit("\\sharp");
    reveal_strlit("\\ensuremath{\\langle}");
    reveal_strlit("\\ensuremath{\\rangle}");
    reveal_strlit("\\ensuremath{\\longleftarrow}");
    reveal_strlit("\\ensuremath{\\longrightarrow}");
    reveal_strlit("\\ensuremath{\\longleftrightarrow}");
    reveal_strlit("\\ensuremath{\\Longleftarrow}");
    reveal_strlit("\\ensuremath{\\Longrightarrow}");
    reveal_strlit("\\ensuremath{\\Longleftrightarrow}");
    reveal_strlit("\\ensuremath{\\longmapsto}");
    reveal_strlit("\\ensuremath{\\sim\\joinrel\\leadsto}");
    reveal_strlit("\\ensuremath{<\\kern-0.58em(}");
    reveal_strlit("\\ensuremath{\\blacklozenge}");
    reveal_strlit("\\ensuremath{\\clockoint}");
    reveal_strlit("\\ensuremath{\\sqrint}");
    reveal_strlit("\\ensuremath{\\amalg}");
    reveal_strlit("\\ensuremath{\\stackrel{*}{=}}");
    reveal_strlit("==");
    reveal_strlit("\\ensuremath{\\leqslant}");
    reveal_strlit("\\ensuremath{\\geqslant}");
    reveal_strlit("\\ensuremath{\\lessapprox}");
    reveal_strlit("\\ensuremath{\\gtrapprox}");
    reveal_strlit("\\ensuremath{\\lneq}");
    reveal_strlit("\\ensuremath{\\gneq}");
}

proof fn lemma_part_17_ascii(c: char)
    ensures
        latex_part_17(c) matches Some(t) ==> all_ascii(t),
{
    reveal_strlit("\\ensuremath{\\lnapprox}");
    reveal_strlit("\\ensuremath{\\gnapprox}");
    reveal_strlit("\\ensuremath{\\lesseqqgtr}");
    reveal_strlit("\\ensuremath{\\gtreqqless}");
    reveal_strlit("\\ensuremath{\\eqslantless}");
    reveal_strlit("\\ensuremath{\\eqslantgtr}");
    reveal_strlit("\\ensuremath{\\preceq}");
    reveal_strlit("\\ensuremath{\\succeq}");
    reveal_strlit("\\ensuremath{\\precneqq}");
    reveal_strlit("\\ensuremath{\\succneqq}");
    reveal_strlit("\\ensuremath{\\precapprox}");
    reveal_strlit("\\ensuremath{\\succapprox}");
    reveal_strlit("\\ensuremath{\\precnapprox}");
    reveal_strlit("\\ensuremath{\\succnapprox}");
    reveal_strlit("\\ensuremath{\\subseteqq}");
    reveal_strlit("\\ensuremath{\\supseteqq}");
    reveal_strlit("\\ensuremath{\\subsetneqq}");
    reveal_strlit("\\ensuremath{\\supsetneqq}");
    reveal_strlit("\\ensuremath{{{/}\\!\\!{/}}}");
    reveal_strlit("\\ensuremath{\\langle}");
    reveal_strlit("\\ensuremath{\\rangle}");
    reveal_strlit("ff");
    reveal_strlit("fi");
    reveal_strlit("fl");
    reveal_strlit("ffi");
    reveal_strlit("ffl");
    reveal_strlit("\\ensuremath{\\mathbf{A}}");
    reveal_strlit("\\ensuremath{\\mathbf{B}}");
    reveal_strlit("\\ensuremath{\\mathbf{C}}");
    reveal_strlit("\\ensuremath{\\mathbf{D}}");
    reveal_strlit("\\ensuremath{\\mathbf{E}}");
    reveal_strlit("\\ensuremath{\\mathbf{F}}");
    reveal_strlit("\\ensuremath{\\mathbf{G}}");
    reveal_strlit("\\ensuremath{\\mathbf{H}}");
    reveal_strlit("\\ensuremath{\\mathbf{I}}");
    reveal_strlit("\\ensuremath{\\mathbf{J}}");
    reveal_strlit("\\ensuremath{\\mathbf{K}}");
    reveal_strlit("\\ensuremath{\\mathbf{L}}");
    reveal_strlit("\\ensuremath{\\mathbf{M}}");
    reveal_strlit("\\ensuremath{\\mathbf{N}}");
    reveal_strlit("\\ensuremath{\\mathbf{O}}");
    reveal_strlit("\\ensuremath{\\mathbf{P}}");
    reveal_strlit("\\ensuremath{\\mathbf{Q}}");
    reveal_strlit("\\ensuremath{\\mathbf{R}}");
    reveal_strlit("\\ensuremath{\\mathbf{S}}");
    reveal_strlit("\\ensuremath{\\mathbf{T}}");
    reveal_strlit("\\ensuremath{\\mathbf{U}}");
    reveal_strlit("\\ensuremath{\\mathbf{V}}");
    reveal_strlit("\\ensuremath{\\mathbf{W}}");
    reveal_strlit("\\ensuremath{\\mathbf{X}}");
    reveal_strlit("\\ensuremath{\\mathbf{Y}}");
    reveal_strlit("\\ensuremath{\\mathbf{Z}}");
    reveal_strlit("\\ensuremath{\\mathbf{a}}");
    reveal_strlit("\\ensuremath{\\mathbf{b}}");
    reveal_strlit("\\ensuremath{\\mathbf{c}}");
    reveal_strlit("\\ensuremath{\\mathbf{d}}");
    reveal_strlit("\\ensuremath{\\mathbf{e}}");
    reveal_strlit("\\ensuremath{\\mathbf{f}}");
    reveal_strlit("\\ensuremath{\\mathbf{g}}");
    reveal_strlit("\\ensuremath{\\mathbf{h}}");
}

proof fn lemma_part_18_ascii(c: char)
    ensures
        latex_part_18(c) matches Some(t) ==> all_ascii(t),
{
    reveal_strlit("\\ensuremath{\\mathbf{i}}");
    reveal_strlit("\\ensuremath{\\mathbf{j}}");
    reveal_strlit("\\ensuremath{\\mathbf{k}}");
    reveal_strlit("\\ensuremath{\\mathbf{l}}");
    reveal_strlit("\\ensuremath{\\mathbf{m}}");
    reveal_strlit("\\ensuremath{\\mathbf{n}}");
    reveal_strlit("\\ensuremath{\\mathbf{o}}");
    reveal_strlit("\\ensuremath{\\mathbf{p}}");
    reveal_strlit("\\ensuremath{\\mathbf{q}}");
    reveal_strlit("\\ensuremath{\\mathbf{r}}");
    reveal_strlit("\\ensuremath{\\mathbf{s}}");
    reveal_strlit("\\ensuremath{\\mathbf{t}}");
    reveal_strlit("\\ensuremath{\\mathbf{u}}");
    reveal_strlit("\\ensuremath{\\mathbf{v}}");
    reveal_strlit("\\ensuremath{\\mathbf{w}}");
    reveal_strlit("\\ensuremath{\\mathbf{x}}");
    reveal_strlit("\\ensuremath{\\mathbf{y}}");
    reveal_strlit("\\ensuremath{\\mathbf{z}}");
    reveal_strlit("\\ensuremath{\\mathit{A}}");
    reveal_strlit("\\ensuremath{\\mathit{B}}");
    reveal_strlit("\\ensuremath{\\mathit{C}}");
    reveal_strlit("\\ensuremath{\\mathit{D}}");
    reveal_strlit("\\ensuremath{\\mathit{E}}");
    reveal_strlit("\\ensuremath{\\mathit{F}}");
    reveal_strlit("\\ensuremath{\\mathit{G}}");
    reveal_strlit("\\ensuremath{\\mathit{H}}");
    reveal_strlit("\\ensuremath{\\mathit{I}}");
    reveal_strlit("\\ensuremath{\\mathit{J}}");
    reveal_strlit("\\ensuremath{\\mathit{K}}");
    reveal_strlit("\\ensuremath{\\mathit{L}}");
    reveal_strlit("\\ensuremath{\\mathit{M}}");
    reveal_strlit("\\ensuremath{\\mathit{N}}");
    reveal_strlit("\\ensuremath{\\mathit{O}}");
    reveal_strlit("\\ensuremath{\\mathit{P}}");
    reveal_strlit("\\ensuremath{\\mathit{Q}}");
    reveal_strlit("\\ensuremath{\\mathit{R}}");
    reveal_strlit("\\ensuremath{\\mathit{S}}");
    reveal_strlit("\\ensuremath{\\mathit{T}}");
    reveal_strlit("\\ensuremath{\\mathit{U}}");
    reveal_strlit("\\ensuremath{\\mathit{V}}");
    reveal_strlit("\\ensuremath{\\mathit{W}}");
    reveal_strlit("\\ensuremath{\\mathit{X}}");
    reveal_strlit("\\ensuremath{\\mathit{Y}}");
    reveal_strlit("\\ensuremath{\\mathit{Z}}");
    reveal_strlit("\\ensuremath{\\mathit{a}}");
    reveal_strlit("\\ensuremath{\\mathit{b}}");
    reveal_strlit("\\ensuremath{\\mathit{c}}");
    reveal_strlit("\\ensuremath{\\mathit{d}}");
    reveal_strlit("\\ensuremath{\\mathit{e}}");
    reveal_strlit("\\ensuremath{\\mathit{f}}");
    reveal_strlit("\\ensuremath{\\mathit{g}}");
    reveal_strlit("\\ensuremath{\\mathit{h}}");
    reveal_strlit("\\ensuremath{\\mathit{i}}");
    reveal_strlit("\\ensuremath{\\mathit{j}}");
    reveal_strlit("\\ensuremath{\\mathit{k}}");
    reveal_strlit("\\ensuremath{\\mathit{l}}");
    reveal_strlit("\\ensuremath{\\mathit{m}}");
    reveal_strlit("\\ensuremath{\\mathit{n}}");
    reveal_strlit("\\ensuremath{\\mathit{o}}");
    reveal_strlit("\\ensuremath{\\mathit{p}}");
}

proof fn lemma_part_19_ascii(c: char)
    ensures
        latex_part_19(c) matches Some(t) ==> all_ascii(t),
{
    reveal_strlit("\\ensuremath{\\mathit{q}}");
    reveal_strlit("\\ensuremath{\\mathit{r}}");
    reveal_strlit("\\ensuremath{\\mathit{s}}");
    reveal_strlit("\\ensuremath{\\mathit{t}}");
    reveal_strlit("\\ensuremath{\\mathit{u}}");
    reveal_strlit("\\ensuremath{\\mathit{v}}");
    reveal_strlit("\\ensuremath{\\mathit{w}}");
    reveal_strlit("\\ensuremath{\\mathit{x}}");
    reveal_strlit("\\ensuremath{\\mathit{y}}");
    reveal_strlit("\\ensuremath{\\mathit{z}}");
    reveal_strlit("\\ensuremath{\\boldsymbol{\\mathit{A}}}");
    reveal_strlit("\\ensuremath{\\boldsymbol{\\mathit{B}}}");
    reveal_strlit("\\ensuremath{\\boldsymbol{\\mathit{C}}}");
    reveal_strlit("\\ensuremath{\\boldsymbol{\\mathit{D}}}");
    reveal_strlit("\\ensuremath{\\boldsymbol{\\mathit{E}}}");
    reveal_strlit("\\ensuremath{\\boldsymbol{\\mathit{F}}}");
    reveal_strlit("\\ensuremath{\\boldsymbol{\\mathit{G}}}");
    reveal_strlit("\\ensuremath{\\boldsymbol{\\mathit{H}}}");
    reveal_strlit("\\ensuremath{\\boldsymbol{\\mathit{I}}}");
    reveal_strlit("\\ensuremath{\\boldsymbol{\\mathit{J}}}");
    reveal_strlit("\\ensuremath{\\boldsymbol{\\mathit{K}}}");
    reveal_strlit("\\ensuremath{\\boldsymbol{\\mathit{L}}}");
    reveal_strlit("\\ensuremath{\\boldsymbol{\\mathit{M}}}");
    reveal_strlit("\\ensuremath{\\boldsymbol{\\mathit{N}}}");
    reveal_strlit("\\ensuremath{\\boldsymbol{\\mathit{O}}}");
    reveal_strlit("\\ensuremath{\\boldsymbol{\\mathit{P}}}");
    reveal_strlit("\\ensuremath{\\boldsymbol{\\mathit{Q}}}");
    reveal_strlit("\\ensuremath{\\boldsymbol{\\mathit{R}}}");
    reveal_strlit("\\ensuremath{\\boldsymbol{\\mathit{S}}}");
    reveal_strlit("\\ensuremath{\\boldsymbol{\\mathit{T}}}");
    reveal_strlit("\\ensuremath{\\boldsymbol{\\mathit{U}}}");
    reveal_strlit("\\ensuremath{\\boldsymbol{\\mathit{V}}}");
    reveal_strlit("\\ensuremath{\\boldsymbol{\\mathit{W}}}");
    reveal_strlit("\\ensuremath{\\boldsymbol{\\mathit{X}}}");
    reveal_strlit("\\ensuremath{\\boldsymbol{\\mathit{Y}}}");
    reveal_strlit("\\ensuremath{\\boldsymbol{\\mathit{Z}}}");
    reveal_strlit("\\ensuremath{\\boldsymbol{\\mathit{a}}}");
    reveal_strlit("\\ensuremath{\\boldsymbol{\\mathit{b}}}");
    reveal_strlit("\\ensuremath{\\boldsymbol{\\mathit{c}}}");
    reveal_strlit("\\ensuremath{\\boldsymbol{\\mathit{d}}}");
    reveal_strlit("\\ensuremath{\\boldsymbol{\\mathit{e}}}");
    reveal_strlit("\\ensuremath{\\boldsymbol{\\mathit{f}}}");
    reveal_strlit("\\ensuremath{\\boldsymbol{\\mathit{g}}}");
    reveal_strlit("\\ensuremath{\\boldsymbol{\\mathit{h}}}");
    reveal_strlit("\\ensuremath{\\boldsymbol{\\mathit{i}}}");
    reveal_strlit("\\ensuremath{\\boldsymbol{\\mathit{j}}}");
    reveal_strlit("\\ensuremath{\\boldsymbol{\\mathit{k}}}");
    reveal_strlit("\\ensuremath{\\boldsymbol{\\mathit{l}}}");
    reveal_strlit("\\ensuremath{\\boldsymbol{\\mathit{m}}}");
    reveal_strlit("\\ensuremath{\\boldsymbol{\\mathit{n}}}");
    reveal_strlit("\\ensuremath{\\boldsymbol{\\mathit{o}}}");
    reveal_strlit("\\ensuremath{\\boldsymbol{\\mathit{p}}}");
    reveal_strlit("\\ensuremath{\\boldsymbol{\\mathit{q}}}");
    reveal_strlit("\\ensuremath{\\boldsymbol{\\mathit{r}}}");
    reveal_strlit("\\ensuremath{\\boldsymbol{\\mathit{s}}}");
    reveal_strlit("\\ensuremath{\\boldsymbol{\\mathit{t}}}");
    reveal_strlit("\\ensuremath{\\boldsymbol{\\mathit{u}}}");
    reveal_strlit("\\ensuremath{\\boldsymbol{\\mathit{v}}}");
    reveal_strlit("\\ensuremath{\\boldsymbol{\\mathit{w}}}");
    reveal_strlit("\\ensuremath{\\boldsymbol{\\mathit{x}}}");
}

proof fn lemma_part_20_ascii(c: char)
    ensures
        latex_part_20(c) matches Some(t) ==> all_ascii(t),
{
    reveal_strlit("\\ensuremath{\\boldsymbol{\\mathit{y}}}");
    reveal_strlit("\\ensuremath{\\boldsymbol{\\mathit{z}}}");
    reveal_strlit("\\ensuremath{\\mathscr{A}}");
    reveal_strlit("\\ensuremath{\\mathscr{B}}");
    reveal_strlit("\\ensuremath{\\mathscr{C}}");
    reveal_strlit("\\ensuremath{\\mathscr{D}}");
    reveal_strlit("\\ensuremath{\\mathscr{E}}");
    reveal_strlit("\\ensuremath{\\mathscr{F}}");
    reveal_strlit("\\ensuremath{\\mathscr{G}}");
    reveal_strlit("\\ensuremath{\\mathscr{H}}");
    reveal_strlit("\\ensuremath{\\mathscr{I}}");
    reveal_strlit("\\ensuremath{\\mathscr{J}}");
    reveal_strlit("\\ensuremath{\\mathscr{K}}");
    reveal_strlit("\\ensuremath{\\mathscr{L}}");
    reveal_strlit("\\ensuremath{\\mathscr{M}}");
    reveal_strlit("\\ensuremath{\\mathscr{N}}");
    reveal_strlit("\\ensuremath{\\mathscr{O}}");
    reveal_strlit("\\ensuremath{\\mathscr{P}}");
    reveal_strlit("\\ensuremath{\\mathscr{Q}}");
    reveal_strlit("\\ensuremath{\\mathscr{R}}");
    reveal_strlit("\\ensuremath{\\mathscr{S}}");
    reveal_strlit("\\ensuremath{\\mathscr{T}}");
    reveal_strlit("\\ensuremath{\\mathscr{U}}");
    reveal_strlit("\\ensuremath{\\mathscr{V}}");
    reveal_strlit("\\ensuremath{\\mathscr{W}}");
    reveal_strlit("\\ensuremath{\\mathscr{X}}");
    reveal_strlit("\\ensuremath{\\mathscr{Y}}");
    reveal_strlit("\\ensuremath{\\mathscr{Z}}");
    reveal_strlit("\\ensuremath{\\mathscr{a}}");
    reveal_strlit("\\ensuremath{\\mathscr{b}}");
    reveal_strlit("\\ensuremath{\\mathscr{c}}");
    reveal_strlit("\\ensuremath{\\mathscr{d}}");
    reveal_strlit("\\ensuremath{\\mathscr{f}}");
    reveal_strlit("\\ensuremath{\\mathscr{h}}");
    reveal_strlit("\\ensuremath{\\mathscr{i}}");
    reveal_strlit("\\ensuremath{\\mathscr{j}}");
    reveal_strlit("\\ensuremath{\\mathscr{k}}");
    reveal_strlit("\\ensuremath{\\mathscr{l}}");
    reveal_strlit("\\ensuremath{\\mathscr{m}}");
    reveal_strlit("\\ensuremath{\\mathscr{n}}");
    reveal_strlit("\\ensuremath{\\mathscr{p}}");
    reveal_strlit("\\ensuremath{\\mathscr{q}}");
    reveal_strlit("\\ensuremath{\\mathscr{r}}");
    reveal_strlit("\\ensuremath{\\mathscr{s}}");
    reveal_strlit("\\ensuremath{\\mathscr{t}}");
    reveal_strlit("\\ensuremath{\\mathscr{u}}");
    reveal_strlit("\\ensuremath{\\mathscr{v}}");
    reveal_strlit("\\ensuremath{\\mathscr{w}}");
    reveal_strlit("\\ensuremath{\\mathscr{x}}");
    reveal_strlit("\\ensuremath{\\mathscr{y}}");
    reveal_strlit("\\ensuremath{\\mathscr{z}}");
    reveal_strlit("\\ensuremath{\\mathfrak{A}}");
    reveal_strlit("\\ensuremath{\\mathfrak{B}}");
    reveal_strlit("\\ensuremath{\\mathfrak{C}}");
    reveal_strlit("\\ensuremath{\\mathfrak{D}}");
    reveal_strlit("\\ensuremath{\\mathfrak{E}}");
    reveal_strlit("\\ensuremath{\\mathfrak{F}}");
    reveal_strlit("\\ensuremath{\\mathfrak{G}}");
    reveal_strlit("\\ensuremath{\\mathfrak{H}}");
    reveal_strlit("\\ensuremath{\\mathfrak{I}}");
}

proof fn lemma_part_21_ascii(c: char)
    ensures
        latex_part_21(c) matches Some(t) ==> all_ascii(t),
{
    reveal_strlit("\\ensuremath{\\mathfrak{J}}");
    reveal_strlit("\\ensuremath{\\mathfrak{K}}");
    reveal_strlit("\\ensuremath{\\mathfrak{L}}");
    reveal_strlit("\\ensuremath{\\mathfrak{M}}");
    reveal_strlit("\\ensuremath{\\mathfrak{N}}");
    reveal_strlit("\\ensuremath{\\mathfrak{O}}");
    reveal_strlit("\\ensuremath{\\mathfrak{P}}");
    reveal_strlit("\\ensuremath{\\mathfrak{Q}}");
    reveal_strlit("\\ensuremath{\\mathfrak{R}}");
    reveal_strlit("\\ensuremath{\\mathfrak{S}}");
    reveal_strlit("\\ensuremath{\\mathfrak{T}}");
    reveal_strlit("\\ensuremath{\\mathfrak{U}}");
    reveal_strlit("\\ensuremath{\\mathfrak{V}}");
    reveal_strlit("\\ensuremath{\\mathfrak{W}}");
    reveal_strlit("\\ensuremath{\\mathfrak{X}}");
    reveal_strlit("\\ensuremath{\\mathfrak{Y}}");
    reveal_strlit("\\ensuremath{\\mathfrak{Z}}");
    reveal_strlit("\\ensuremath{\\mathfrak{a}}");
    reveal_strlit("\\ensuremath{\\mathfrak{b}}");
    reveal_strlit("\\ensuremath{\\mathfrak{c}}");
    reveal_strlit("\\ensuremath{\\mathfrak{d}}");
    reveal_strlit("\\ensuremath{\\mathfrak{e}}");
    reveal_strlit("\\ensuremath{\\mathfrak{f}}");
    reveal_strlit("\\ensuremath{\\mathfrak{g}}");
    reveal_strlit("\\ensuremath{\\mathfrak{h}}");
    reveal_strlit("\\ensuremath{\\mathfrak{i}}");
    reveal_strlit("\\ensuremath{\\mathfrak{j}}");
    reveal_strlit("\\ensuremath{\\mathfrak{k}}");
    reveal_strlit("\\ensuremath{\\mathfrak{l}}");
    reveal_strlit("\\ensuremath{\\mathfrak{m}}");
    reveal_strlit("\\ensuremath{\\mathfrak{n}}");
    reveal_strlit("\\ensuremath{\\mathfrak{o}}");
    reveal_strlit("\\ensuremath{\\mathfrak{p}}");
    reveal_strlit("\\ensuremath{\\mathfrak{q}}");
    reveal_strlit("\\ensuremath{\\mathfrak{r}}");
    reveal_strlit("\\ensuremath{\\mathfrak{s}}");
    reveal_strlit("\\ensuremath{\\mathfrak{t}}");
    reveal_strlit("\\ensuremath{\\mathfrak{u}}");
    reveal_strlit("\\ensuremath{\\mathfrak{v}}");
    reveal_strlit("\\ensuremath{\\mathfrak{w}}");
    reveal_strlit("\\ensuremath{\\mathfrak{x}}");
    reveal_strlit("\\ensuremath{\\mathfrak{y}}");
    reveal_strlit("\\ensuremath{\\mathfrak{z}}");
    reveal_strlit("\\ensuremath{\\mathbb{A}}");
    reveal_strlit("\\ensuremath{\\mathbb{B}}");
    reveal_strlit("\\ensuremath{\\mathbb{C}}");
    reveal_strlit("\\ensuremath{\\mathbb{D}}");
    reveal_strlit("\\ensuremath{\\mathbb{E}}");
    reveal_strlit("\\ensuremath{\\mathbb{F}}");
    reveal_strlit("\\ensuremath{\\mathbb{G}}");
    reveal_strlit("\\ensuremath{\\mathbb{H}}");
    reveal_strlit("\\ensuremath{\\mathbb{I}}");
    reveal_strlit("\\ensuremath{\\mathbb{J}}");
    reveal_strlit("\\ensuremath{\\mathbb{K}}");
    reveal_strlit("\\ensuremath{\\mathbb{L}}");
    reveal_strlit("\\ensuremath{\\mathbb{M}}");
    reveal_strlit("\\ensuremath{\\mathbb{N}}");
    reveal_strlit("\\ensuremath{\\mathbb{O}}");
    reveal_strlit("\\ensuremath{\\mathbb{P}}");
    reveal_strlit("\\ensuremath{\\mathbb{Q}}");
}

proof fn lemma_part_22_ascii(c: char)
    ensures
        latex_part_22(c) matches Some(t) ==> all_ascii(t),
{
    reveal_strlit("\\ensuremath{\\mathbb{R}}");
    reveal_strlit("\\ensuremath{\\mathbb{S}}");
    reveal_strlit("\\ensuremath{\\mathbb{T}}");
    reveal_strlit("\\ensuremath{\\mathbb{U}}");
    reveal_strlit("\\ensuremath{\\mathbb{V}}");
    reveal_strlit("\\ensuremath{\\mathbb{W}}");
    reveal_strlit("\\ensuremath{\\mathbb{X}}");
    reveal_strlit("\\ensuremath{\\mathbb{Y}}");
    reveal_strlit("\\ensuremath{\\mathbb{Z}}");
    reveal_strlit("\\ensuremath{\\mathbb{a}}");
    reveal_strlit("\\ensuremath{\\mathbb{b}}");
    reveal_strlit("\\ensuremath{\\mathbb{c}}");
    reveal_strlit("\\ensuremath{\\mathbb{d}}");
    reveal_strlit("\\ensuremath{\\mathbb{e}}");
    reveal_strlit("\\ensuremath{\\mathbb{f}}");
    reveal_strlit("\\ensuremath{\\mathbb{g}}");
    reveal_strlit("\\ensuremath{\\mathbb{h}}");
    reveal_strlit("\\ensuremath{\\mathbb{i}}");
    reveal_strlit("\\ensuremath{\\mathbb{j}}");
    reveal_strlit("\\ensuremath{\\mathbb{k}}");
    reveal_strlit("\\ensuremath{\\mathbb{l}}");
    reveal_strlit("\\ensuremath{\\mathbb{m}}");
    reveal_strlit("\\ensuremath{\\mathbb{n}}");
    reveal_strlit("\\ensuremath{\\mathbb{o}}");
    reveal_strlit("\\ensuremath{\\mathbb{p}}");
    reveal_strlit("\\ensuremath{\\mathbb{q}}");
    reveal_strlit("\\ensuremath{\\mathbb{r}}");
    reveal_strlit("\\ensuremath{\\mathbb{s}}");
    reveal_strlit("\\ensuremath{\\mathbb{t}}");
    reveal_strlit("\\ensuremath{\\mathbb{u}}");
    reveal_strlit("\\ensuremath{\\mathbb{v}}");
    reveal_strlit("\\ensuremath{\\mathbb{w}}");
    reveal_strlit("\\ensuremath{\\mathbb{x}}");
    reveal_strlit("\\ensuremath{\\mathbb{y}}");
    reveal_strlit("\\ensuremath{\\mathbb{z}}");
    reveal_strlit("\\ensuremath{\\mathsf{A}}");
    reveal_strlit("\\ensuremath{\\mathsf{B}}");
    reveal_strlit("\\ensuremath{\\mathsf{C}}");
    reveal_strlit("\\ensuremath{\\mathsf{D}}");
    reveal_strlit("\\ensuremath{\\mathsf{E}}");
    reveal_strlit("\\ensuremath{\\mathsf{F}}");
    reveal_strlit("\\ensuremath{\\mathsf{G}}");
    reveal_strlit("\\ensuremath{\\mathsf{H}}");
    reveal_strlit("\\ensuremath{\\mathsf{I}}");
    reveal_strlit("\\ensuremath{\\mathsf{J}}");
    reveal_strlit("\\ensuremath{\\mathsf{K}}");
    reveal_strlit("\\ensuremath{\\mathsf{L}}");
    reveal_strlit("\\ensuremath{\\mathsf{M}}");
    reveal_strlit("\\ensuremath{\\mathsf{N}}");
    reveal_strlit("\\ensuremath{\\mathsf{O}}");
    reveal_strlit("\\ensuremath{\\mathsf{P}}");
    reveal_strlit("\\ensuremath{\\mathsf{Q}}");
    reveal_strlit("\\ensuremath{\\mathsf{R}}");
    reveal_strlit("\\ensuremath{\\mathsf{S}}");
    reveal_strlit("\\ensuremath{\\mathsf{T}}");
    reveal_strlit("\\ensuremath{\\mathsf{U}}");
    reveal_strlit("\\ensuremath{\\mathsf{V}}");
    reveal_strlit("\\ensuremath{\\mathsf{W}}");
    reveal_strlit("\\ensuremath{\\mathsf{X}}");
    reveal_strlit("\\ensuremath{\\mathsf{Y}}");
}

proof fn lemma_part_23_ascii(c: char)
    ensures
        latex_part_23(c) matches Some(t) ==> all_ascii(t),
{
    reveal_strlit("\\ensuremath{\\mathsf{Z}}");
    reveal_strlit("\\ensuremath{\\mathsf{a}}");
    reveal_strlit("\\ensuremath{\\mathsf{b}}");
    reveal_strlit("\\ensuremath{\\mathsf{c}}");
    reveal_strlit("\\ensuremath{\\mathsf{d}}");
    reveal_strlit("\\ensuremath{\\mathsf{e}}");
    reveal_strlit("\\ensuremath{\\mathsf{f}}");
    reveal_strlit("\\ensuremath{\\mathsf{g}}");
    reveal_strlit("\\ensuremath{\\mathsf{h}}");
    reveal_strlit("\\ensuremath{\\mathsf{i}}");
    reveal_strlit("\\ensuremath{\\mathsf{j}}");
    reveal_strlit("\\ensuremath{\\mathsf{k}}");
    reveal_strlit("\\ensuremath{\\mathsf{l}}");
    reveal_strlit("\\ensuremath{\\mathsf{m}}");
    reveal_strlit("\\ensuremath{\\mathsf{n}}");
    reveal_strlit("\\ensuremath{\\mathsf{o}}");
    reveal_strlit("\\ensuremath{\\mathsf{p}}");
    reveal_strlit("\\ensuremath{\\mathsf{q}}");
    reveal_strlit("\\ensuremath{\\mathsf{r}}");
    reveal_strlit("\\ensuremath{\\mathsf{s}}");
    reveal_strlit("\\ensuremath{\\mathsf{t}}");
    reveal_strlit("\\ensuremath{\\mathsf{u}}");
    reveal_strlit("\\ensuremath{\\mathsf{v}}");
    reveal_strlit("\\ensuremath{\\mathsf{w}}");
    reveal_strlit("\\ensuremath{\\mathsf{x}}");
    reveal_strlit("\\ensuremath{\\mathsf{y}}");
    reveal_strlit("\\ensuremath{\\mathsf{z}}");
    reveal_strlit("\\ensuremath{\\mathtt{A}}");
    reveal_strlit("\\ensuremath{\\mathtt{B}}");
    reveal_strlit("\\ensuremath{\\mathtt{C}}");
    reveal_strlit("\\ensuremath{\\mathtt{D}}");
    reveal_strlit("\\ensuremath{\\mathtt{E}}");
    reveal_strlit("\\ensuremath{\\mathtt{F}}");
    reveal_strlit("\\ensuremath{\\mathtt{G}}");
    reveal_strlit("\\ensuremath{\\mathtt{H}}");
    reveal_strlit("\\ensuremath{\\mathtt{I}}");
    reveal_strlit("\\ensuremath{\\mathtt{J}}");
    reveal_strlit("\\ensuremath{\\mathtt{K}}");
    reveal_strlit("\\ensuremath{\\mathtt{L}}");
    reveal_strlit("\\ensuremath{\\mathtt{M}}");
    reveal_strlit("\\ensuremath{\\mathtt{N}}");
    reveal_strlit("\\ensuremath{\\mathtt{O}}");
    reveal_strlit("\\ensuremath{\\mathtt{P}}");
    reveal_strlit("\\ensuremath{\\mathtt{Q}}");
    reveal_strlit("\\ensuremath{\\mathtt{R}}");
    reveal_strlit("\\ensuremath{\\mathtt{S}}");
    reveal_strlit("\\ensuremath{\\mathtt{T}}");
    reveal_strlit("\\ensuremath{\\mathtt{U}}");
    reveal_strlit("\\ensuremath{\\mathtt{V}}");
    reveal_strlit("\\ensuremath{\\mathtt{W}}");
    reveal_strlit("\\ensuremath{\\mathtt{X}}");
    reveal_strlit("\\ensuremath{\\mathtt{Y}}");
    reveal_strlit("\\ensuremath{\\mathtt{Z}}");
    reveal_strlit("\\ensuremath{\\mathtt{a}}");
    reveal_strlit("\\ensuremath{\\mathtt{b}}");
    reveal_strlit("\\ensuremath{\\mathtt{c}}");
    reveal_strlit("\\ensuremath{\\mathtt{d}}");
    reveal_strlit("\\ensuremath{\\mathtt{e}}");
    reveal_strlit("\\ensuremath{\\mathtt{f}}");
    reveal_strlit("\\ensuremath{\\mathtt{g}}");
}

proof fn lemma_part_24_ascii(c: char)
    ensures
        latex_part_24(c) matches Some(t) ==> all_ascii(t),
{
    reveal_strlit("\\ensuremath{\\mathtt{h}}");
    reveal_strlit("\\ensuremath{\\mathtt{i}}");
    reveal_strlit("\\ensuremath{\\mathtt{j}}");
    reveal_strlit("\\ensuremath{\\mathtt{k}}");
    reveal_strlit("\\ensuremath{\\mathtt{l}}");
    reveal_strlit("\\ensuremath{\\mathtt{m}}");
    reveal_strlit("\\ensuremath{\\mathtt{n}}");
    reveal_strlit("\\ensuremath{\\mathtt{o}}");
    reveal_strlit("\\ensuremath{\\mathtt{p}}");
    reveal_strlit("\\ensuremath{\\mathtt{q}}");
    reveal_strlit("\\ensuremath{\\mathtt{r}}");
    reveal_strlit("\\ensuremath{\\mathtt{s}}");
    reveal_strlit("\\ensuremath{\\mathtt{t}}");
    reveal_strlit("\\ensuremath{\\mathtt{u}}");
    reveal_strlit("\\ensuremath{\\mathtt{v}}");
    reveal_strlit("\\ensuremath{\\mathtt{w}}");
    reveal_strlit("\\ensuremath{\\mathtt{x}}");
    reveal_strlit("\\ensuremath{\\mathtt{y}}");
    reveal_strlit("\\ensuremath{\\mathtt{z}}");
    reveal_strlit("\\ensuremath{\\mathbf{0}}");
    reveal_strlit("\\ensuremath{\\mathbf{1}}");
    reveal_strlit("\\ensuremath{\\mathbf{2}}");
    reveal_strlit("\\ensuremath{\\mathbf{3}}");
    reveal_strlit("\\ensuremath{\\mathbf{4}}");
    reveal_strlit("\\ensuremath{\\mathbf{5}}");
    reveal_strlit("\\ensuremath{\\mathbf{6}}");
    reveal_strlit("\\ensuremath{\\mathbf{7}}");
    reveal_strlit("\\ensuremath{\\mathbf{8}}");
    reveal_strlit("\\ensuremath{\\mathbf{9}}");
    reveal_strlit("\\ensuremath{\\mathbb{0}}");
    reveal_strlit("\\ensuremath{\\mathbb{1}}");
    reveal_strlit("\\ensuremath{\\mathbb{2}}");
    reveal_strlit("\\ensuremath{\\mathbb{3}}");
    reveal_strlit("\\ensuremath{\\mathbb{4}}");
    reveal_strlit("\\ensuremath{\\mathbb{5}}");
    reveal_strlit("\\ensuremath{\\mathbb{6}}");
    reveal_strlit("\\ensuremath{\\mathbb{7}}");
    reveal_strlit("\\ensuremath{\\mathbb{8}}");
    reveal_strlit("\\ensuremath{\\mathbb{9}}");
    reveal_strlit("\\ensuremath{\\mathsf{0}}");
    reveal_strlit("\\ensuremath{\\mathsf{1}}");
    reveal_strlit("\\ensuremath{\\mathsf{2}}");
    reveal_strlit("\\ensuremath{\\mathsf{3}}");
    reveal_strlit("\\ensuremath{\\mathsf{4}}");
    reveal_strlit("\\ensuremath{\\mathsf{5}}");
    reveal_strlit("\\ensuremath{\\mathsf{6}}");
    reveal_strlit("\\ensuremath{\\mathsf{7}}");
    reveal_strlit("\\ensuremath{\\mathsf{8}}");
    reveal_strlit("\\ensuremath{\\mathsf{9}}");
    reveal_strlit("\\ensuremath{\\mathtt{0}}");
    reveal_strlit("\\ensuremath{\\mathtt{1}}");
    reveal_strlit("\\ensuremath{\\mathtt{2}}");
    reveal_strlit("\\ensuremath{\\mathtt{3}}");
    reveal_strlit("\\ensuremath{\\mathtt{4}}");
    reveal_strlit("\\ensuremath{\\mathtt{5}}");
    reveal_strlit("\\ensuremath{\\mathtt{6}}");
    reveal_strlit("\\ensuremath{\\mathtt{7}}");
    reveal_strlit("\\ensuremath{\\mathtt{8}}");
    reveal_strlit("\\ensuremath{\\mathtt{9}}");
}

/// Every command of the table is ASCII.
pub proof fn lemma_latex_ascii(c: char)
    ensures
        latex_of(c) matches Some(t) ==> all_ascii(t),
{
    lemma_part_0_ascii(c);
    lemma_part_1_ascii(c);
    lemma_part_2_ascii(c);
    lemma_part_3_ascii(c);
    lemma_part_4_ascii(c);
    lemma_part_5_ascii(c);
    lemma_part_6_ascii(c);
    lemma_part_7_ascii(c);
    lemma_part_8_ascii(c);
    lemma_part_9_ascii(c);
    lemma_part_10_ascii(c);
    lemma_part_11_ascii(c);
    lemma_part_12_ascii(c);
    lemma_part_13_ascii(c);
    lemma_part_14_ascii(c);
    lemma_part_15_ascii(c);
    lemma_part_16_ascii(c);
    lemma_part_17_ascii(c);
    lemma_part_18_ascii(c);
    lemma_part_19_ascii(c);
    lemma_part_20_ascii(c);
    lemma_part_21_ascii(c);
    lemma_part_22_ascii(c);
    lemma_part_23_ascii(c);
    lemma_part_24_ascii(c);
}

/// Transliteration yields ASCII text.
pub proof fn lemma_transliterated_ascii(s: Seq<char>)
    ensures
        transliterated(s) matches Ok(t) ==> all_ascii(t),
    decreases s.len(),
{
    if s.len() > 0 {
        lemma_transliterated_ascii(s.drop_last());
        lemma_latex_ascii(s.last());
        if let Ok(p) = transliterated(s.drop_last()) {
            if let Ok(t) = transliterated(s) {
                assert forall|i: int| 0 <= i < t.len() implies ascii(#[trigger] t[i]) by {
                    if i < p.len() {
                        assert(t[i] == p[i]);
                    }
                }
            }
        }
    }
}

} // verus!
