//! English words and programming terms recognised from key sequences, the English word
//! adapter and the retired dictionary repository.

use vstd::prelude::*;
use crate::keys;
use crate::detection::key_codes;
use crate::syllable::{eq_chars, in_list, views};
use crate::text::{slice_chars, str_chars, CharSequence};

verus! {

/// Common English words of 3 letters.
pub open spec fn common_words_3() -> Seq<Seq<char>> {
    seq![
        seq!['a', 'l', 'l'],
        seq!['a', 'n', 'd'],
        seq!['a', 'n', 'y'],
        seq!['a', 'r', 'e'],
        seq!['b', 'u', 't'],
        seq!['c', 'a', 'n'],
        seq!['d', 'a', 'y'],
        seq!['d', 'i', 'd'],
        seq!['e', 'n', 'd'],
        seq!['f', 'e', 'w'],
        seq!['f', 'o', 'r'],
        seq!['g', 'e', 't'],
        seq!['h', 'a', 'd'],
        seq!['h', 'a', 's'],
        seq!['h', 'e', 'r'],
        seq!['h', 'i', 'm'],
        seq!['h', 'i', 's'],
        seq!['h', 'o', 'w'],
        seq!['l', 'e', 't'],
        seq!['m', 'a', 'n'],
        seq!['m', 'a', 'y'],
        seq!['n', 'e', 'w'],
        seq!['n', 'o', 't'],
        seq!['n', 'o', 'w'],
        seq!['o', 'f', 'f'],
        seq!['o', 'l', 'd'],
        seq!['o', 'u', 'r'],
        seq!['o', 'u', 't'],
        seq!['o', 'w', 'n'],
        seq!['p', 'u', 't'],
        seq!['s', 'a', 'w'],
        seq!['s', 'a', 'y'],
        seq!['s', 'e', 'e'],
        seq!['s', 'e', 't'],
        seq!['s', 'h', 'e'],
        seq!['t', 'h', 'e'],
        seq!['t', 'o', 'o'],
        seq!['t', 'w', 'o'],
        seq!['u', 's', 'e'],
        seq!['w', 'a', 's'],
        seq!['w', 'a', 'y'],
        seq!['w', 'h', 'o'],
        seq!['w', 'h', 'y'],
        seq!['y', 'e', 's'],
        seq!['y', 'o', 'u'],
    ]
}

fn in_common_words_3(w: &[char]) -> (r: bool)
    ensures
        r == common_words_3().contains(w@),
{
    let list: [&[char]; 45] = [
        &['a', 'l', 'l'],
        &['a', 'n', 'd'],
        &['a', 'n', 'y'],
        &['a', 'r', 'e'],
        &['b', 'u', 't'],
        &['c', 'a', 'n'],
        &['d', 'a', 'y'],
        &['d', 'i', 'd'],
        &['e', 'n', 'd'],
        &['f', 'e', 'w'],
        &['f', 'o', 'r'],
        &['g', 'e', 't'],
        &['h', 'a', 'd'],
        &['h', 'a', 's'],
        &['h', 'e', 'r'],
        &['h', 'i', 'm'],
        &['h', 'i', 's'],
        &['h', 'o', 'w'],
        &['l', 'e', 't'],
        &['m', 'a', 'n'],
        &['m', 'a', 'y'],
        &['n', 'e', 'w'],
        &['n', 'o', 't'],
        &['n', 'o', 'w'],
        &['o', 'f', 'f'],
        &['o', 'l', 'd'],
        &['o', 'u', 'r'],
        &['o', 'u', 't'],
        &['o', 'w', 'n'],
        &['p', 'u', 't'],
        &['s', 'a', 'w'],
        &['s', 'a', 'y'],
        &['s', 'e', 'e'],
        &['s', 'e', 't'],
        &['s', 'h', 'e'],
        &['t', 'h', 'e'],
        &['t', 'o', 'o'],
        &['t', 'w', 'o'],
        &['u', 's', 'e'],
        &['w', 'a', 's'],
        &['w', 'a', 'y'],
        &['w', 'h', 'o'],
        &['w', 'h', 'y'],
        &['y', 'e', 's'],
        &['y', 'o', 'u'],
    ];
    proof {
        assert(list@[0]@ =~= common_words_3()[0]);
        assert(list@[1]@ =~= common_words_3()[1]);
        assert(list@[2]@ =~= common_words_3()[2]);
        assert(list@[3]@ =~= common_words_3()[3]);
        assert(list@[4]@ =~= common_words_3()[4]);
        assert(list@[5]@ =~= common_words_3()[5]);
        assert(list@[6]@ =~= common_words_3()[6]);
        assert(list@[7]@ =~= common_words_3()[7]);
        assert(list@[8]@ =~= common_words_3()[8]);
        assert(list@[9]@ =~= common_words_3()[9]);
        assert(list@[10]@ =~= common_words_3()[10]);
        assert(list@[11]@ =~= common_words_3()[11]);
        assert(list@[12]@ =~= common_words_3()[12]);
        assert(list@[13]@ =~= common_words_3()[13]);
        assert(list@[14]@ =~= common_words_3()[14]);
        assert(list@[15]@ =~= common_words_3()[15]);
        assert(list@[16]@ =~= common_words_3()[16]);
        assert(list@[17]@ =~= common_words_3()[17]);
        assert(list@[18]@ =~= common_words_3()[18]);
        assert(list@[19]@ =~= common_words_3()[19]);
        assert(list@[20]@ =~= common_words_3()[20]);
        assert(list@[21]@ =~= common_words_3()[21]);
        assert(list@[22]@ =~= common_words_3()[22]);
        assert(list@[23]@ =~= common_words_3()[23]);
        assert(list@[24]@ =~= common_words_3()[24]);
        assert(list@[25]@ =~= common_words_3()[25]);
        assert(list@[26]@ =~= common_words_3()[26]);
        assert(list@[27]@ =~= common_words_3()[27]);
        assert(list@[28]@ =~= common_words_3()[28]);
        assert(list@[29]@ =~= common_words_3()[29]);
        assert(list@[30]@ =~= common_words_3()[30]);
        assert(list@[31]@ =~= common_words_3()[31]);
        assert(list@[32]@ =~= common_words_3()[32]);
        assert(list@[33]@ =~= common_words_3()[33]);
        assert(list@[34]@ =~= common_words_3()[34]);
        assert(list@[35]@ =~= common_words_3()[35]);
        assert(list@[36]@ =~= common_words_3()[36]);
        assert(list@[37]@ =~= common_words_3()[37]);
        assert(list@[38]@ =~= common_words_3()[38]);
        assert(list@[39]@ =~= common_words_3()[39]);
        assert(list@[40]@ =~= common_words_3()[40]);
        assert(list@[41]@ =~= common_words_3()[41]);
        assert(list@[42]@ =~= common_words_3()[42]);
        assert(list@[43]@ =~= common_words_3()[43]);
        assert(list@[44]@ =~= common_words_3()[44]);
        assert(views(list@) =~= common_words_3());
    }
    in_list(w, &list)
}

/// Common English words of 4 letters.
pub open spec fn common_words_4() -> Seq<Seq<char>> {
    seq![
        seq!['a', 'l', 's', 'o'],
        seq!['b', 'e', 'e', 'n'],
        seq!['b', 'o', 't', 'h'],
        seq!['c', 'a', 'l', 'l'],
        seq!['c', 'a', 'm', 'e'],
        seq!['c', 'o', 'm', 'e'],
        seq!['d', 'o', 'e', 's'],
        seq!['d', 'o', 'n', 'e'],
        seq!['d', 'o', 'w', 'n'],
        seq!['e', 'a', 'c', 'h'],
        seq!['e', 'v', 'e', 'n'],
        seq!['f', 'i', 'n', 'd'],
        seq!['f', 'r', 'o', 'm'],
        seq!['g', 'i', 'v', 'e'],
        seq!['g', 'o', 'o', 'd'],
        seq!['h', 'a', 'v', 'e'],
        seq!['h', 'e', 'l', 'p'],
        seq!['h', 'e', 'r', 'e'],
        seq!['h', 'i', 'g', 'h'],
        seq!['h', 'o', 'm', 'e'],
        seq!['i', 'n', 't', 'o'],
        seq!['j', 'u', 's', 't'],
        seq!['k', 'e', 'e', 'p'],
        seq!['k', 'i', 'n', 'd'],
        seq!['k', 'n', 'o', 'w'],
        seq!['l', 'a', 's', 't'],
        seq!['l', 'e', 'f', 't'],
        seq!['l', 'i', 'k', 'e'],
        seq!['l', 'i', 'n', 'e'],
        seq!['l', 'i', 'v', 'e'],
        seq!['l', 'o', 'n', 'g'],
        seq!['l', 'o', 'o', 'k'],
        seq!['m', 'a', 'd', 'e'],
        seq!['m', 'a', 'k', 'e'],
        seq!['m', 'a', 'n', 'y'],
        seq!['m', 'o', 'r', 'e'],
        seq!['m', 'o', 's', 't'],
        seq!['m', 'u', 'c', 'h'],
        seq!['m', 'u', 's', 't'],
        seq!['n', 'a', 'm', 'e'],
        seq!['n', 'e', 'e', 'd'],
        seq!['n', 'e', 'x', 't'],
        seq!['o', 'n', 'l', 'y'],
        seq!['o', 'p', 'e', 'n'],
        seq!['o', 'v', 'e', 'r'],
        seq!['p', 'a', 'r', 't'],
        seq!['p', 'l', 'a', 'y'],
        seq!['r', 'e', 'a', 'd'],
        seq!['s', 'a', 'i', 'd'],
        seq!['s', 'a', 'm', 'e'],
        seq!['s', 'e', 'e', 'm'],
        seq!['s', 'h', 'o', 'w'],
        seq!['s', 'i', 'd', 'e'],
        seq!['s', 'o', 'm', 'e'],
        seq!['s', 'u', 'c', 'h'],
        seq!['t', 'a', 'k', 'e'],
        seq!['t', 'e', 'l', 'l'],
        seq!['t', 'e', 'x', 't'],
        seq!['t', 'h', 'a', 'n'],
        seq!['t', 'h', 'a', 't'],
        seq!['t', 'h', 'e', 'm'],
        seq!['t', 'h', 'e', 'n'],
        seq!['t', 'h', 'e', 'y'],
        seq!['t', 'h', 'i', 's'],
        seq!['t', 'i', 'm', 'e'],
        seq!['t', 'u', 'r', 'n'],
        seq!['v', 'e', 'r', 'y'],
        seq!['w', 'a', 'n', 't'],
        seq!['w', 'e', 'l', 'l'],
        seq!['w', 'e', 'n', 't'],
        seq!['w', 'e', 'r', 'e'],
        seq!['w', 'h', 'a', 't'],
        seq!['w', 'h', 'e', 'n'],
        seq!['w', 'i', 'l', 'l'],
        seq!['w', 'i', 't', 'h'],
        seq!['w', 'o', 'r', 'd'],
        seq!['w', 'o', 'r', 'k'],
        seq!['y', 'e', 'a', 'r'],
        seq!['y', 'o', 'u', 'r'],
        seq!['c', 'o', 's', 't'],
    ]
}

fn in_common_words_4(w: &[char]) -> (r: bool)
    ensures
        r == common_words_4().contains(w@),
{
    let list: [&[char]; 80] = [
        &['a', 'l', 's', 'o'],
        &['b', 'e', 'e', 'n'],
        &['b', 'o', 't', 'h'],
        &['c', 'a', 'l', 'l'],
        &['c', 'a', 'm', 'e'],
        &['c', 'o', 'm', 'e'],
        &['d', 'o', 'e', 's'],
        &['d', 'o', 'n', 'e'],
        &['d', 'o', 'w', 'n'],
        &['e', 'a', 'c', 'h'],
        &['e', 'v', 'e', 'n'],
        &['f', 'i', 'n', 'd'],
        &['f', 'r', 'o', 'm'],
        &['g', 'i', 'v', 'e'],
        &['g', 'o', 'o', 'd'],
        &['h', 'a', 'v', 'e'],
        &['h', 'e', 'l', 'p'],
        &['h', 'e', 'r', 'e'],
        &['h', 'i', 'g', 'h'],
        &['h', 'o', 'm', 'e'],
        &['i', 'n', 't', 'o'],
        &['j', 'u', 's', 't'],
        &['k', 'e', 'e', 'p'],
        &['k', 'i', 'n', 'd'],
        &['k', 'n', 'o', 'w'],
        &['l', 'a', 's', 't'],
        &['l', 'e', 'f', 't'],
        &['l', 'i', 'k', 'e'],
        &['l', 'i', 'n', 'e'],
        &['l', 'i', 'v', 'e'],
        &['l', 'o', 'n', 'g'],
        &['l', 'o', 'o', 'k'],
        &['m', 'a', 'd', 'e'],
        &['m', 'a', 'k', 'e'],
        &['m', 'a', 'n', 'y'],
        &['m', 'o', 'r', 'e'],
        &['m', 'o', 's', 't'],
        &['m', 'u', 'c', 'h'],
        &['m', 'u', 's', 't'],
        &['n', 'a', 'm', 'e'],
        &['n', 'e', 'e', 'd'],
        &['n', 'e', 'x', 't'],
        &['o', 'n', 'l', 'y'],
        &['o', 'p', 'e', 'n'],
        &['o', 'v', 'e', 'r'],
        &['p', 'a', 'r', 't'],
        &['p', 'l', 'a', 'y'],
        &['r', 'e', 'a', 'd'],
        &['s', 'a', 'i', 'd'],
        &['s', 'a', 'm', 'e'],
        &['s', 'e', 'e', 'm'],
        &['s', 'h', 'o', 'w'],
        &['s', 'i', 'd', 'e'],
        &['s', 'o', 'm', 'e'],
        &['s', 'u', 'c', 'h'],
        &['t', 'a', 'k', 'e'],
        &['t', 'e', 'l', 'l'],
        &['t', 'e', 'x', 't'],
        &['t', 'h', 'a', 'n'],
        &['t', 'h', 'a', 't'],
        &['t', 'h', 'e', 'm'],
        &['t', 'h', 'e', 'n'],
        &['t', 'h', 'e', 'y'],
        &['t', 'h', 'i', 's'],
        &['t', 'i', 'm', 'e'],
        &['t', 'u', 'r', 'n'],
        &['v', 'e', 'r', 'y'],
        &['w', 'a', 'n', 't'],
        &['w', 'e', 'l', 'l'],
        &['w', 'e', 'n', 't'],
        &['w', 'e', 'r', 'e'],
        &['w', 'h', 'a', 't'],
        &['w', 'h', 'e', 'n'],
        &['w', 'i', 'l', 'l'],
        &['w', 'i', 't', 'h'],
        &['w', 'o', 'r', 'd'],
        &['w', 'o', 'r', 'k'],
        &['y', 'e', 'a', 'r'],
        &['y', 'o', 'u', 'r'],
        &['c', 'o', 's', 't'],
    ];
    proof {
        assert(list@[0]@ =~= common_words_4()[0]);
        assert(list@[1]@ =~= common_words_4()[1]);
        assert(list@[2]@ =~= common_words_4()[2]);
        assert(list@[3]@ =~= common_words_4()[3]);
        assert(list@[4]@ =~= common_words_4()[4]);
        assert(list@[5]@ =~= common_words_4()[5]);
        assert(list@[6]@ =~= common_words_4()[6]);
        assert(list@[7]@ =~= common_words_4()[7]);
        assert(list@[8]@ =~= common_words_4()[8]);
        assert(list@[9]@ =~= common_words_4()[9]);
        assert(list@[10]@ =~= common_words_4()[10]);
        assert(list@[11]@ =~= common_words_4()[11]);
        assert(list@[12]@ =~= common_words_4()[12]);
        assert(list@[13]@ =~= common_words_4()[13]);
        assert(list@[14]@ =~= common_words_4()[14]);
        assert(list@[15]@ =~= common_words_4()[15]);
        assert(list@[16]@ =~= common_words_4()[16]);
        assert(list@[17]@ =~= common_words_4()[17]);
        assert(list@[18]@ =~= common_words_4()[18]);
        assert(list@[19]@ =~= common_words_4()[19]);
        assert(list@[20]@ =~= common_words_4()[20]);
        assert(list@[21]@ =~= common_words_4()[21]);
        assert(list@[22]@ =~= common_words_4()[22]);
        assert(list@[23]@ =~= common_words_4()[23]);
        assert(list@[24]@ =~= common_words_4()[24]);
        assert(list@[25]@ =~= common_words_4()[25]);
        assert(list@[26]@ =~= common_words_4()[26]);
        assert(list@[27]@ =~= common_words_4()[27]);
        assert(list@[28]@ =~= common_words_4()[28]);
        assert(list@[29]@ =~= common_words_4()[29]);
        assert(list@[30]@ =~= common_words_4()[30]);
        assert(list@[31]@ =~= common_words_4()[31]);
        assert(list@[32]@ =~= common_words_4()[32]);
        assert(list@[33]@ =~= common_words_4()[33]);
        assert(list@[34]@ =~= common_words_4()[34]);
        assert(list@[35]@ =~= common_words_4()[35]);
        assert(list@[36]@ =~= common_words_4()[36]);
        assert(list@[37]@ =~= common_words_4()[37]);
        assert(list@[38]@ =~= common_words_4()[38]);
        assert(list@[39]@ =~= common_words_4()[39]);
        assert(list@[40]@ =~= common_words_4()[40]);
        assert(list@[41]@ =~= common_words_4()[41]);
        assert(list@[42]@ =~= common_words_4()[42]);
        assert(list@[43]@ =~= common_words_4()[43]);
        assert(list@[44]@ =~= common_words_4()[44]);
        assert(list@[45]@ =~= common_words_4()[45]);
        assert(list@[46]@ =~= common_words_4()[46]);
        assert(list@[47]@ =~= common_words_4()[47]);
        assert(list@[48]@ =~= common_words_4()[48]);
        assert(list@[49]@ =~= common_words_4()[49]);
        assert(list@[50]@ =~= common_words_4()[50]);
        assert(list@[51]@ =~= common_words_4()[51]);
        assert(list@[52]@ =~= common_words_4()[52]);
        assert(list@[53]@ =~= common_words_4()[53]);
        assert(list@[54]@ =~= common_words_4()[54]);
        assert(list@[55]@ =~= common_words_4()[55]);
        assert(list@[56]@ =~= common_words_4()[56]);
        assert(list@[57]@ =~= common_words_4()[57]);
        assert(list@[58]@ =~= common_words_4()[58]);
        assert(list@[59]@ =~= common_words_4()[59]);
        assert(list@[60]@ =~= common_words_4()[60]);
        assert(list@[61]@ =~= common_words_4()[61]);
        assert(list@[62]@ =~= common_words_4()[62]);
        assert(list@[63]@ =~= common_words_4()[63]);
        assert(list@[64]@ =~= common_words_4()[64]);
        assert(list@[65]@ =~= common_words_4()[65]);
        assert(list@[66]@ =~= common_words_4()[66]);
        assert(list@[67]@ =~= common_words_4()[67]);
        assert(list@[68]@ =~= common_words_4()[68]);
        assert(list@[69]@ =~= common_words_4()[69]);
        assert(list@[70]@ =~= common_words_4()[70]);
        assert(list@[71]@ =~= common_words_4()[71]);
        assert(list@[72]@ =~= common_words_4()[72]);
        assert(list@[73]@ =~= common_words_4()[73]);
        assert(list@[74]@ =~= common_words_4()[74]);
        assert(list@[75]@ =~= common_words_4()[75]);
        assert(list@[76]@ =~= common_words_4()[76]);
        assert(list@[77]@ =~= common_words_4()[77]);
        assert(list@[78]@ =~= common_words_4()[78]);
        assert(list@[79]@ =~= common_words_4()[79]);
        assert(views(list@) =~= common_words_4());
    }
    in_list(w, &list)
}

/// Common English words of 5 letters.
pub open spec fn common_words_5() -> Seq<Seq<char>> {
    seq![
        seq!['a', 'b', 'o', 'u', 't'],
        seq!['a', 'b', 'o', 'v', 'e'],
        seq!['a', 'f', 't', 'e', 'r'],
        seq!['a', 'g', 'a', 'i', 'n'],
        seq!['b', 'e', 'i', 'n', 'g'],
        seq!['b', 'e', 'l', 'o', 'w'],
        seq!['c', 'l', 'a', 's', 's'],
        seq!['c', 'o', 'u', 'l', 'd'],
        seq!['e', 'v', 'e', 'r', 'y'],
        seq!['f', 'i', 'r', 's', 't'],
        seq!['f', 'o', 'u', 'n', 'd'],
        seq!['g', 'r', 'e', 'a', 't'],
        seq!['h', 'o', 'u', 's', 'e'],
        seq!['l', 'a', 'r', 'g', 'e'],
        seq!['l', 'e', 'a', 'r', 'n'],
        seq!['n', 'e', 'v', 'e', 'r'],
        seq!['o', 'f', 't', 'e', 'n'],
        seq!['o', 't', 'h', 'e', 'r'],
        seq!['p', 'l', 'a', 'c', 'e'],
        seq!['p', 'o', 'i', 'n', 't'],
        seq!['r', 'i', 'g', 'h', 't'],
        seq!['s', 'm', 'a', 'l', 'l'],
        seq!['s', 'o', 'u', 'n', 'd'],
        seq!['s', 'p', 'e', 'l', 'l'],
        seq!['s', 't', 'i', 'l', 'l'],
        seq!['s', 't', 'u', 'd', 'y'],
        seq!['t', 'h', 'e', 'i', 'r'],
        seq!['t', 'h', 'e', 'r', 'e'],
        seq!['t', 'h', 'e', 's', 'e'],
        seq!['t', 'h', 'i', 'n', 'g'],
        seq!['t', 'h', 'i', 'n', 'k'],
        seq!['t', 'h', 'o', 's', 'e'],
        seq!['t', 'h', 'r', 'e', 'e'],
        seq!['u', 'n', 'd', 'e', 'r'],
        seq!['u', 'n', 't', 'i', 'l'],
        seq!['v', 'a', 'l', 'u', 'e'],
        seq!['w', 'a', 't', 'e', 'r'],
        seq!['w', 'h', 'e', 'r', 'e'],
        seq!['w', 'h', 'i', 'c', 'h'],
        seq!['w', 'h', 'i', 'l', 'e'],
        seq!['w', 'o', 'r', 'l', 'd'],
        seq!['w', 'o', 'u', 'l', 'd'],
        seq!['w', 'r', 'i', 't', 'e'],
    ]
}

fn in_common_words_5(w: &[char]) -> (r: bool)
    ensures
        r == common_words_5().contains(w@),
{
    let list: [&[char]; 43] = [
        &['a', 'b', 'o', 'u', 't'],
        &['a', 'b', 'o', 'v', 'e'],
        &['a', 'f', 't', 'e', 'r'],
        &['a', 'g', 'a', 'i', 'n'],
        &['b', 'e', 'i', 'n', 'g'],
        &['b', 'e', 'l', 'o', 'w'],
        &['c', 'l', 'a', 's', 's'],
        &['c', 'o', 'u', 'l', 'd'],
        &['e', 'v', 'e', 'r', 'y'],
        &['f', 'i', 'r', 's', 't'],
        &['f', 'o', 'u', 'n', 'd'],
        &['g', 'r', 'e', 'a', 't'],
        &['h', 'o', 'u', 's', 'e'],
        &['l', 'a', 'r', 'g', 'e'],
        &['l', 'e', 'a', 'r', 'n'],
        &['n', 'e', 'v', 'e', 'r'],
        &['o', 'f', 't', 'e', 'n'],
        &['o', 't', 'h', 'e', 'r'],
        &['p', 'l', 'a', 'c', 'e'],
        &['p', 'o', 'i', 'n', 't'],
        &['r', 'i', 'g', 'h', 't'],
        &['s', 'm', 'a', 'l', 'l'],
        &['s', 'o', 'u', 'n', 'd'],
        &['s', 'p', 'e', 'l', 'l'],
        &['s', 't', 'i', 'l', 'l'],
        &['s', 't', 'u', 'd', 'y'],
        &['t', 'h', 'e', 'i', 'r'],
        &['t', 'h', 'e', 'r', 'e'],
        &['t', 'h', 'e', 's', 'e'],
        &['t', 'h', 'i', 'n', 'g'],
        &['t', 'h', 'i', 'n', 'k'],
        &['t', 'h', 'o', 's', 'e'],
        &['t', 'h', 'r', 'e', 'e'],
        &['u', 'n', 'd', 'e', 'r'],
        &['u', 'n', 't', 'i', 'l'],
        &['v', 'a', 'l', 'u', 'e'],
        &['w', 'a', 't', 'e', 'r'],
        &['w', 'h', 'e', 'r', 'e'],
        &['w', 'h', 'i', 'c', 'h'],
        &['w', 'h', 'i', 'l', 'e'],
        &['w', 'o', 'r', 'l', 'd'],
        &['w', 'o', 'u', 'l', 'd'],
        &['w', 'r', 'i', 't', 'e'],
    ];
    proof {
        assert(list@[0]@ =~= common_words_5()[0]);
        assert(list@[1]@ =~= common_words_5()[1]);
        assert(list@[2]@ =~= common_words_5()[2]);
        assert(list@[3]@ =~= common_words_5()[3]);
        assert(list@[4]@ =~= common_words_5()[4]);
        assert(list@[5]@ =~= common_words_5()[5]);
        assert(list@[6]@ =~= common_words_5()[6]);
        assert(list@[7]@ =~= common_words_5()[7]);
        assert(list@[8]@ =~= common_words_5()[8]);
        assert(list@[9]@ =~= common_words_5()[9]);
        assert(list@[10]@ =~= common_words_5()[10]);
        assert(list@[11]@ =~= common_words_5()[11]);
        assert(list@[12]@ =~= common_words_5()[12]);
        assert(list@[13]@ =~= common_words_5()[13]);
        assert(list@[14]@ =~= common_words_5()[14]);
        assert(list@[15]@ =~= common_words_5()[15]);
        assert(list@[16]@ =~= common_words_5()[16]);
        assert(list@[17]@ =~= common_words_5()[17]);
        assert(list@[18]@ =~= common_words_5()[18]);
        assert(list@[19]@ =~= common_words_5()[19]);
        assert(list@[20]@ =~= common_words_5()[20]);
        assert(list@[21]@ =~= common_words_5()[21]);
        assert(list@[22]@ =~= common_words_5()[22]);
        assert(list@[23]@ =~= common_words_5()[23]);
        assert(list@[24]@ =~= common_words_5()[24]);
        assert(list@[25]@ =~= common_words_5()[25]);
        assert(list@[26]@ =~= common_words_5()[26]);
        assert(list@[27]@ =~= common_words_5()[27]);
        assert(list@[28]@ =~= common_words_5()[28]);
        assert(list@[29]@ =~= common_words_5()[29]);
        assert(list@[30]@ =~= common_words_5()[30]);
        assert(list@[31]@ =~= common_words_5()[31]);
        assert(list@[32]@ =~= common_words_5()[32]);
        assert(list@[33]@ =~= common_words_5()[33]);
        assert(list@[34]@ =~= common_words_5()[34]);
        assert(list@[35]@ =~= common_words_5()[35]);
        assert(list@[36]@ =~= common_words_5()[36]);
        assert(list@[37]@ =~= common_words_5()[37]);
        assert(list@[38]@ =~= common_words_5()[38]);
        assert(list@[39]@ =~= common_words_5()[39]);
        assert(list@[40]@ =~= common_words_5()[40]);
        assert(list@[41]@ =~= common_words_5()[41]);
        assert(list@[42]@ =~= common_words_5()[42]);
        assert(views(list@) =~= common_words_5());
    }
    in_list(w, &list)
}

/// Common English words of 6 letters.
pub open spec fn common_words_6() -> Seq<Seq<char>> {
    seq![
        seq!['a', 'l', 'w', 'a', 'y', 's'],
        seq!['a', 'r', 'o', 'u', 'n', 'd'],
        seq!['b', 'e', 'f', 'o', 'r', 'e'],
        seq!['c', 'h', 'a', 'n', 'g', 'e'],
        seq!['e', 'x', 'p', 'e', 'c', 't'],
        seq!['e', 'x', 'p', 'o', 'r', 't'],
        seq!['f', 'o', 'l', 'l', 'o', 'w'],
        seq!['i', 'm', 'p', 'o', 'r', 't'],
        seq!['l', 'i', 't', 't', 'l', 'e'],
        seq!['n', 'u', 'm', 'b', 'e', 'r'],
        seq!['p', 'e', 'o', 'p', 'l', 'e'],
        seq!['p', 'u', 'b', 'l', 'i', 'c'],
        seq!['r', 'e', 't', 'u', 'r', 'n'],
        seq!['s', 'h', 'o', 'u', 'l', 'd'],
        seq!['s', 't', 'a', 't', 'i', 'c'],
        seq!['s', 't', 'r', 'i', 'n', 'g'],
        seq!['d', 'e', 'l', 'e', 't', 'e'],
    ]
}

fn in_common_words_6(w: &[char]) -> (r: bool)
    ensures
        r == common_words_6().contains(w@),
{
    let list: [&[char]; 17] = [
        &['a', 'l', 'w', 'a', 'y', 's'],
        &['a', 'r', 'o', 'u', 'n', 'd'],
        &['b', 'e', 'f', 'o', 'r', 'e'],
        &['c', 'h', 'a', 'n', 'g', 'e'],
        &['e', 'x', 'p', 'e', 'c', 't'],
        &['e', 'x', 'p', 'o', 'r', 't'],
        &['f', 'o', 'l', 'l', 'o', 'w'],
        &['i', 'm', 'p', 'o', 'r', 't'],
        &['l', 'i', 't', 't', 'l', 'e'],
        &['n', 'u', 'm', 'b', 'e', 'r'],
        &['p', 'e', 'o', 'p', 'l', 'e'],
        &['p', 'u', 'b', 'l', 'i', 'c'],
        &['r', 'e', 't', 'u', 'r', 'n'],
        &['s', 'h', 'o', 'u', 'l', 'd'],
        &['s', 't', 'a', 't', 'i', 'c'],
        &['s', 't', 'r', 'i', 'n', 'g'],
        &['d', 'e', 'l', 'e', 't', 'e'],
    ];
    proof {
        assert(list@[0]@ =~= common_words_6()[0]);
        assert(list@[1]@ =~= common_words_6()[1]);
        assert(list@[2]@ =~= common_words_6()[2]);
        assert(list@[3]@ =~= common_words_6()[3]);
        assert(list@[4]@ =~= common_words_6()[4]);
        assert(list@[5]@ =~= common_words_6()[5]);
        assert(list@[6]@ =~= common_words_6()[6]);
        assert(list@[7]@ =~= common_words_6()[7]);
        assert(list@[8]@ =~= common_words_6()[8]);
        assert(list@[9]@ =~= common_words_6()[9]);
        assert(list@[10]@ =~= common_words_6()[10]);
        assert(list@[11]@ =~= common_words_6()[11]);
        assert(list@[12]@ =~= common_words_6()[12]);
        assert(list@[13]@ =~= common_words_6()[13]);
        assert(list@[14]@ =~= common_words_6()[14]);
        assert(list@[15]@ =~= common_words_6()[15]);
        assert(list@[16]@ =~= common_words_6()[16]);
        assert(views(list@) =~= common_words_6());
    }
    in_list(w, &list)
}

/// Common English words of 7 letters.
pub open spec fn common_words_7() -> Seq<Seq<char>> {
    seq![
        seq!['a', 'g', 'a', 'i', 'n', 's', 't'],
        seq!['a', 'n', 'o', 't', 'h', 'e', 'r'],
        seq!['b', 'e', 'c', 'a', 'u', 's', 'e'],
        seq!['b', 'e', 't', 'w', 'e', 'e', 'n'],
        seq!['d', 'e', 'f', 'a', 'u', 'l', 't'],
        seq!['t', 'h', 'o', 'u', 'g', 'h', 't'],
        seq!['t', 'h', 'r', 'o', 'u', 'g', 'h'],
    ]
}

fn in_common_words_7(w: &[char]) -> (r: bool)
    ensures
        r == common_words_7().contains(w@),
{
    let list: [&[char]; 7] = [
        &['a', 'g', 'a', 'i', 'n', 's', 't'],
        &['a', 'n', 'o', 't', 'h', 'e', 'r'],
        &['b', 'e', 'c', 'a', 'u', 's', 'e'],
        &['b', 'e', 't', 'w', 'e', 'e', 'n'],
        &['d', 'e', 'f', 'a', 'u', 'l', 't'],
        &['t', 'h', 'o', 'u', 'g', 'h', 't'],
        &['t', 'h', 'r', 'o', 'u', 'g', 'h'],
    ];
    proof {
        assert(list@[0]@ =~= common_words_7()[0]);
        assert(list@[1]@ =~= common_words_7()[1]);
        assert(list@[2]@ =~= common_words_7()[2]);
        assert(list@[3]@ =~= common_words_7()[3]);
        assert(list@[4]@ =~= common_words_7()[4]);
        assert(list@[5]@ =~= common_words_7()[5]);
        assert(list@[6]@ =~= common_words_7()[6]);
        assert(views(list@) =~= common_words_7());
    }
    in_list(w, &list)
}

/// Common English words of 8 letters.
pub open spec fn common_words_8() -> Seq<Seq<char>> {
    seq![
        seq!['s', 'e', 'n', 't', 'e', 'n', 'c', 'e'],
    ]
}

fn in_common_words_8(w: &[char]) -> (r: bool)
    ensures
        r == common_words_8().contains(w@),
{
    let list: [&[char]; 1] = [
        &['s', 'e', 'n', 't', 'e', 'n', 'c', 'e'],
    ];
    proof {
        assert(list@[0]@ =~= common_words_8()[0]);
        assert(views(list@) =~= common_words_8());
    }
    in_list(w, &list)
}

/// Common English words of 9 letters.
pub open spec fn common_words_9() -> Seq<Seq<char>> {
    seq![
        seq!['d', 'i', 'f', 'f', 'e', 'r', 'e', 'n', 't'],
        seq!['s', 'o', 'm', 'e', 't', 'h', 'i', 'n', 'g'],
    ]
}

fn in_common_words_9(w: &[char]) -> (r: bool)
    ensures
        r == common_words_9().contains(w@),
{
    let list: [&[char]; 2] = [
        &['d', 'i', 'f', 'f', 'e', 'r', 'e', 'n', 't'],
        &['s', 'o', 'm', 'e', 't', 'h', 'i', 'n', 'g'],
    ];
    proof {
        assert(list@[0]@ =~= common_words_9()[0]);
        assert(list@[1]@ =~= common_words_9()[1]);
        assert(views(list@) =~= common_words_9());
    }
    in_list(w, &list)
}

/// Common English words of 2 letters.
pub open spec fn common_words_2() -> Seq<Seq<char>> {
    seq![
        seq!['b', 'y'],
        seq!['i', 'f'],
        seq!['i', 's'],
        seq!['i', 't'],
        seq!['m', 'y'],
        seq!['u', 'p'],
        seq!['u', 's'],
        seq!['w', 'e'],
    ]
}

fn in_common_words_2(w: &[char]) -> (r: bool)
    ensures
        r == common_words_2().contains(w@),
{
    let list: [&[char]; 8] = [
        &['b', 'y'],
        &['i', 'f'],
        &['i', 's'],
        &['i', 't'],
        &['m', 'y'],
        &['u', 'p'],
        &['u', 's'],
        &['w', 'e'],
    ];
    proof {
        assert(list@[0]@ =~= common_words_2()[0]);
        assert(list@[1]@ =~= common_words_2()[1]);
        assert(list@[2]@ =~= common_words_2()[2]);
        assert(list@[3]@ =~= common_words_2()[3]);
        assert(list@[4]@ =~= common_words_2()[4]);
        assert(list@[5]@ =~= common_words_2()[5]);
        assert(list@[6]@ =~= common_words_2()[6]);
        assert(list@[7]@ =~= common_words_2()[7]);
        assert(views(list@) =~= common_words_2());
    }
    in_list(w, &list)
}

/// Common English words of 10 letters.
pub open spec fn common_words_10() -> Seq<Seq<char>> {
    seq![
        seq!['e', 'v', 'e', 'r', 'y', 't', 'h', 'i', 'n', 'g'],
        seq!['u', 'n', 'd', 'e', 'r', 's', 't', 'a', 'n', 'd'],
        seq!['m', 'a', 'n', 'a', 'g', 'e', 'm', 'e', 'n', 't'],
        seq!['b', 'a', 'c', 'k', 'g', 'r', 'o', 'u', 'n', 'd'],
        seq!['e', 'x', 'p', 'e', 'r', 'i', 'e', 'n', 'c', 'e'],
    ]
}

fn in_common_words_10(w: &[char]) -> (r: bool)
    ensures
        r == common_words_10().contains(w@),
{
    let list: [&[char]; 5] = [
        &['e', 'v', 'e', 'r', 'y', 't', 'h', 'i', 'n', 'g'],
        &['u', 'n', 'd', 'e', 'r', 's', 't', 'a', 'n', 'd'],
        &['m', 'a', 'n', 'a', 'g', 'e', 'm', 'e', 'n', 't'],
        &['b', 'a', 'c', 'k', 'g', 'r', 'o', 'u', 'n', 'd'],
        &['e', 'x', 'p', 'e', 'r', 'i', 'e', 'n', 'c', 'e'],
    ];
    proof {
        assert(list@[0]@ =~= common_words_10()[0]);
        assert(list@[1]@ =~= common_words_10()[1]);
        assert(list@[2]@ =~= common_words_10()[2]);
        assert(list@[3]@ =~= common_words_10()[3]);
        assert(list@[4]@ =~= common_words_10()[4]);
        assert(views(list@) =~= common_words_10());
    }
    in_list(w, &list)
}

/// Common English words of 11 letters.
pub open spec fn common_words_11() -> Seq<Seq<char>> {
    seq![
        seq!['i', 'n', 'f', 'o', 'r', 'm', 'a', 't', 'i', 'o', 'n'],
        seq!['d', 'e', 'v', 'e', 'l', 'o', 'p', 'm', 'e', 'n', 't'],
        seq!['p', 'e', 'r', 'f', 'o', 'r', 'm', 'a', 'n', 'c', 'e'],
    ]
}

fn in_common_words_11(w: &[char]) -> (r: bool)
    ensures
        r == common_words_11().contains(w@),
{
    let list: [&[char]; 3] = [
        &['i', 'n', 'f', 'o', 'r', 'm', 'a', 't', 'i', 'o', 'n'],
        &['d', 'e', 'v', 'e', 'l', 'o', 'p', 'm', 'e', 'n', 't'],
        &['p', 'e', 'r', 'f', 'o', 'r', 'm', 'a', 'n', 'c', 'e'],
    ];
    proof {
        assert(list@[0]@ =~= common_words_11()[0]);
        assert(list@[1]@ =~= common_words_11()[1]);
        assert(list@[2]@ =~= common_words_11()[2]);
        assert(views(list@) =~= common_words_11());
    }
    in_list(w, &list)
}

/// Common English words of 12 letters.
pub open spec fn common_words_12() -> Seq<Seq<char>> {
    seq![
        seq!['r', 'e', 'l', 'a', 't', 'i', 'o', 'n', 's', 'h', 'i', 'p'],
        seq!['p', 'a', 'r', 't', 'i', 'c', 'u', 'l', 'a', 'r', 'l', 'y'],
        seq!['o', 'r', 'g', 'a', 'n', 'i', 'z', 'a', 't', 'i', 'o', 'n'],
    ]
}

fn in_common_words_12(w: &[char]) -> (r: bool)
    ensures
        r == common_words_12().contains(w@),
{
    let list: [&[char]; 3] = [
        &['r', 'e', 'l', 'a', 't', 'i', 'o', 'n', 's', 'h', 'i', 'p'],
        &['p', 'a', 'r', 't', 'i', 'c', 'u', 'l', 'a', 'r', 'l', 'y'],
        &['o', 'r', 'g', 'a', 'n', 'i', 'z', 'a', 't', 'i', 'o', 'n'],
    ];
    proof {
        assert(list@[0]@ =~= common_words_12()[0]);
        assert(list@[1]@ =~= common_words_12()[1]);
        assert(list@[2]@ =~= common_words_12()[2]);
        assert(views(list@) =~= common_words_12());
    }
    in_list(w, &list)
}

/// Common English words of 13 letters.
pub open spec fn common_words_13() -> Seq<Seq<char>> {
    seq![
        seq!['i', 'n', 't', 'e', 'r', 'n', 'a', 't', 'i', 'o', 'n', 'a', 'l'],
        seq!['e', 'n', 'v', 'i', 'r', 'o', 'n', 'm', 'e', 'n', 't', 'a', 'l'],
        seq!['c', 'o', 'm', 'm', 'u', 'n', 'i', 'c', 'a', 't', 'i', 'o', 'n'],
    ]
}

fn in_common_words_13(w: &[char]) -> (r: bool)
    ensures
        r == common_words_13().contains(w@),
{
    let list: [&[char]; 3] = [
        &['i', 'n', 't', 'e', 'r', 'n', 'a', 't', 'i', 'o', 'n', 'a', 'l'],
        &['e', 'n', 'v', 'i', 'r', 'o', 'n', 'm', 'e', 'n', 't', 'a', 'l'],
        &['c', 'o', 'm', 'm', 'u', 'n', 'i', 'c', 'a', 't', 'i', 'o', 'n'],
    ];
    proof {
        assert(list@[0]@ =~= common_words_13()[0]);
        assert(list@[1]@ =~= common_words_13()[1]);
        assert(list@[2]@ =~= common_words_13()[2]);
        assert(views(list@) =~= common_words_13());
    }
    in_list(w, &list)
}

/// Common English words of 14 letters.
pub open spec fn common_words_14() -> Seq<Seq<char>> {
    seq![
        seq!['i', 'm', 'p', 'l', 'e', 'm', 'e', 'n', 't', 'a', 't', 'i', 'o', 'n'],
        seq!['r', 'e', 's', 'p', 'o', 'n', 's', 'i', 'b', 'i', 'l', 'i', 't', 'y'],
        seq!['a', 'd', 'm', 'i', 'n', 'i', 's', 't', 'r', 'a', 't', 'i', 'o', 'n'],
    ]
}

fn in_common_words_14(w: &[char]) -> (r: bool)
    ensures
        r == common_words_14().contains(w@),
{
    let list: [&[char]; 3] = [
        &['i', 'm', 'p', 'l', 'e', 'm', 'e', 'n', 't', 'a', 't', 'i', 'o', 'n'],
        &['r', 'e', 's', 'p', 'o', 'n', 's', 'i', 'b', 'i', 'l', 'i', 't', 'y'],
        &['a', 'd', 'm', 'i', 'n', 'i', 's', 't', 'r', 'a', 't', 'i', 'o', 'n'],
    ];
    proof {
        assert(list@[0]@ =~= common_words_14()[0]);
        assert(list@[1]@ =~= common_words_14()[1]);
        assert(list@[2]@ =~= common_words_14()[2]);
        assert(views(list@) =~= common_words_14());
    }
    in_list(w, &list)
}

/// Common English words of 15 letters.
pub open spec fn common_words_15() -> Seq<Seq<char>> {
    seq![
        seq!['c', 'h', 'a', 'r', 'a', 'c', 't', 'e', 'r', 'i', 's', 't', 'i', 'c', 's'],
        seq!['r', 'e', 'c', 'o', 'm', 'm', 'e', 'n', 'd', 'a', 't', 'i', 'o', 'n', 's'],
    ]
}

fn in_common_words_15(w: &[char]) -> (r: bool)
    ensures
        r == common_words_15().contains(w@),
{
    let list: [&[char]; 2] = [
        &['c', 'h', 'a', 'r', 'a', 'c', 't', 'e', 'r', 'i', 's', 't', 'i', 'c', 's'],
        &['r', 'e', 'c', 'o', 'm', 'm', 'e', 'n', 'd', 'a', 't', 'i', 'o', 'n', 's'],
    ];
    proof {
        assert(list@[0]@ =~= common_words_15()[0]);
        assert(list@[1]@ =~= common_words_15()[1]);
        assert(views(list@) =~= common_words_15());
    }
    in_list(w, &list)
}

/// Common English words of 16 letters.
pub open spec fn common_words_16() -> Seq<Seq<char>> {
    seq![
        seq!['i', 'n', 't', 'e', 'r', 'n', 'a', 't', 'i', 'o', 'n', 'a', 'l', 'i', 's', 'm'],
        seq!['r', 'e', 's', 'p', 'o', 'n', 's', 'i', 'b', 'i', 'l', 'i', 't', 'i', 'e', 's'],
    ]
}

fn in_common_words_16(w: &[char]) -> (r: bool)
    ensures
        r == common_words_16().contains(w@),
{
    let list: [&[char]; 2] = [
        &['i', 'n', 't', 'e', 'r', 'n', 'a', 't', 'i', 'o', 'n', 'a', 'l', 'i', 's', 'm'],
        &['r', 'e', 's', 'p', 'o', 'n', 's', 'i', 'b', 'i', 'l', 'i', 't', 'i', 'e', 's'],
    ];
    proof {
        assert(list@[0]@ =~= common_words_16()[0]);
        assert(list@[1]@ =~= common_words_16()[1]);
        assert(views(list@) =~= common_words_16());
    }
    in_list(w, &list)
}

/// Programming terms of 4 letters.
pub open spec fn programming_terms_4() -> Seq<Seq<char>> {
    seq![
        seq!['f', 'u', 'n', 'c'],
        seq!['p', 'r', 'o', 'p'],
        seq!['a', 'r', 'g', 's'],
        seq!['s', 'e', 'l', 'f'],
        seq!['n', 'o', 'n', 'e'],
        seq!['s', 'o', 'm', 'e'],
        seq!['d', 'e', 'f', 's'],
        seq!['i', 'n', 'i', 't'],
        seq!['m', 'a', 'i', 'n'],
        seq!['e', 'x', 'i', 't'],
        seq!['p', 'a', 't', 'h'],
        seq!['a', 'p', 'p', 's'],
        seq!['t', 'e', 'm', 'p'],
        seq!['c', 'o', 'p', 'y'],
        seq!['m', 'o', 'v', 'e'],
        seq!['p', 'u', 's', 'h'],
        seq!['p', 'u', 'l', 'l'],
        seq!['h', 'a', 's', 'h'],
        seq!['j', 's', 'o', 'n'],
        seq!['y', 'a', 'm', 'l'],
        seq!['h', 't', 'm', 'l'],
        seq!['h', 't', 't', 'p'],
        seq!['u', 'u', 'i', 'd'],
    ]
}

fn in_programming_terms_4(w: &[char]) -> (r: bool)
    ensures
        r == programming_terms_4().contains(w@),
{
    let list: [&[char]; 23] = [
        &['f', 'u', 'n', 'c'],
        &['p', 'r', 'o', 'p'],
        &['a', 'r', 'g', 's'],
        &['s', 'e', 'l', 'f'],
        &['n', 'o', 'n', 'e'],
        &['s', 'o', 'm', 'e'],
        &['d', 'e', 'f', 's'],
        &['i', 'n', 'i', 't'],
        &['m', 'a', 'i', 'n'],
        &['e', 'x', 'i', 't'],
        &['p', 'a', 't', 'h'],
        &['a', 'p', 'p', 's'],
        &['t', 'e', 'm', 'p'],
        &['c', 'o', 'p', 'y'],
        &['m', 'o', 'v', 'e'],
        &['p', 'u', 's', 'h'],
        &['p', 'u', 'l', 'l'],
        &['h', 'a', 's', 'h'],
        &['j', 's', 'o', 'n'],
        &['y', 'a', 'm', 'l'],
        &['h', 't', 'm', 'l'],
        &['h', 't', 't', 'p'],
        &['u', 'u', 'i', 'd'],
    ];
    proof {
        assert(list@[0]@ =~= programming_terms_4()[0]);
        assert(list@[1]@ =~= programming_terms_4()[1]);
        assert(list@[2]@ =~= programming_terms_4()[2]);
        assert(list@[3]@ =~= programming_terms_4()[3]);
        assert(list@[4]@ =~= programming_terms_4()[4]);
        assert(list@[5]@ =~= programming_terms_4()[5]);
        assert(list@[6]@ =~= programming_terms_4()[6]);
        assert(list@[7]@ =~= programming_terms_4()[7]);
        assert(list@[8]@ =~= programming_terms_4()[8]);
        assert(list@[9]@ =~= programming_terms_4()[9]);
        assert(list@[10]@ =~= programming_terms_4()[10]);
        assert(list@[11]@ =~= programming_terms_4()[11]);
        assert(list@[12]@ =~= programming_terms_4()[12]);
        assert(list@[13]@ =~= programming_terms_4()[13]);
        assert(list@[14]@ =~= programming_terms_4()[14]);
        assert(list@[15]@ =~= programming_terms_4()[15]);
        assert(list@[16]@ =~= programming_terms_4()[16]);
        assert(list@[17]@ =~= programming_terms_4()[17]);
        assert(list@[18]@ =~= programming_terms_4()[18]);
        assert(list@[19]@ =~= programming_terms_4()[19]);
        assert(list@[20]@ =~= programming_terms_4()[20]);
        assert(list@[21]@ =~= programming_terms_4()[21]);
        assert(list@[22]@ =~= programming_terms_4()[22]);
        assert(views(list@) =~= programming_terms_4());
    }
    in_list(w, &list)
}

/// Programming terms of 5 letters.
pub open spec fn programming_terms_5() -> Seq<Seq<char>> {
    seq![
        seq!['p', 'r', 'i', 'n', 't'],
        seq!['d', 'e', 'b', 'u', 'g'],
        seq!['s', 'l', 'e', 'e', 'p'],
        seq!['s', 'p', 'a', 'w', 'n'],
        seq!['y', 'i', 'e', 'l', 'd'],
        seq!['t', 'r', 'a', 'i', 't'],
        seq!['s', 't', 'r', 'u', 'c'],
        seq!['u', 'n', 'i', 'o', 'n'],
        seq!['t', 'u', 'p', 'l', 'e'],
        seq!['a', 'r', 'r', 'a', 'y'],
        seq!['s', 'l', 'i', 'c', 'e'],
        seq!['r', 'a', 'n', 'g', 'e'],
        seq!['t', 'e', 'l', 'e', 'x'],
        seq!['c', 'l', 'o', 'n', 'e'],
        seq!['c', 'a', 't', 'c', 'h'],
        seq!['t', 'h', 'r', 'o', 'w'],
        seq!['f', 'i', 'n', 'a', 'l'],
        seq!['s', 'u', 'p', 'e', 'r'],
        seq!['f', 'l', 'o', 'a', 't'],
        seq!['i', 'n', 't', 'e', 'r'],
        seq!['p', 'a', 'r', 's', 'e'],
        seq!['f', 'e', 't', 'c', 'h'],
        seq!['p', 'a', 't', 'c', 'h'],
        seq!['m', 'e', 'r', 'g', 'e'],
        seq!['s', 'p', 'l', 'i', 't'],
    ]
}

fn in_programming_terms_5(w: &[char]) -> (r: bool)
    ensures
        r == programming_terms_5().contains(w@),
{
    let list: [&[char]; 25] = [
        &['p', 'r', 'i', 'n', 't'],
        &['d', 'e', 'b', 'u', 'g'],
        &['s', 'l', 'e', 'e', 'p'],
        &['s', 'p', 'a', 'w', 'n'],
        &['y', 'i', 'e', 'l', 'd'],
        &['t', 'r', 'a', 'i', 't'],
        &['s', 't', 'r', 'u', 'c'],
        &['u', 'n', 'i', 'o', 'n'],
        &['t', 'u', 'p', 'l', 'e'],
        &['a', 'r', 'r', 'a', 'y'],
        &['s', 'l', 'i', 'c', 'e'],
        &['r', 'a', 'n', 'g', 'e'],
        &['t', 'e', 'l', 'e', 'x'],
        &['c', 'l', 'o', 'n', 'e'],
        &['c', 'a', 't', 'c', 'h'],
        &['t', 'h', 'r', 'o', 'w'],
        &['f', 'i', 'n', 'a', 'l'],
        &['s', 'u', 'p', 'e', 'r'],
        &['f', 'l', 'o', 'a', 't'],
        &['i', 'n', 't', 'e', 'r'],
        &['p', 'a', 'r', 's', 'e'],
        &['f', 'e', 't', 'c', 'h'],
        &['p', 'a', 't', 'c', 'h'],
        &['m', 'e', 'r', 'g', 'e'],
        &['s', 'p', 'l', 'i', 't'],
    ];
    proof {
        assert(list@[0]@ =~= programming_terms_5()[0]);
        assert(list@[1]@ =~= programming_terms_5()[1]);
        assert(list@[2]@ =~= programming_terms_5()[2]);
        assert(list@[3]@ =~= programming_terms_5()[3]);
        assert(list@[4]@ =~= programming_terms_5()[4]);
        assert(list@[5]@ =~= programming_terms_5()[5]);
        assert(list@[6]@ =~= programming_terms_5()[6]);
        assert(list@[7]@ =~= programming_terms_5()[7]);
        assert(list@[8]@ =~= programming_terms_5()[8]);
        assert(list@[9]@ =~= programming_terms_5()[9]);
        assert(list@[10]@ =~= programming_terms_5()[10]);
        assert(list@[11]@ =~= programming_terms_5()[11]);
        assert(list@[12]@ =~= programming_terms_5()[12]);
        assert(list@[13]@ =~= programming_terms_5()[13]);
        assert(list@[14]@ =~= programming_terms_5()[14]);
        assert(list@[15]@ =~= programming_terms_5()[15]);
        assert(list@[16]@ =~= programming_terms_5()[16]);
        assert(list@[17]@ =~= programming_terms_5()[17]);
        assert(list@[18]@ =~= programming_terms_5()[18]);
        assert(list@[19]@ =~= programming_terms_5()[19]);
        assert(list@[20]@ =~= programming_terms_5()[20]);
        assert(list@[21]@ =~= programming_terms_5()[21]);
        assert(list@[22]@ =~= programming_terms_5()[22]);
        assert(list@[23]@ =~= programming_terms_5()[23]);
        assert(list@[24]@ =~= programming_terms_5()[24]);
        assert(views(list@) =~= programming_terms_5());
    }
    in_list(w, &list)
}

/// Programming terms of 6 letters.
pub open spec fn programming_terms_6() -> Seq<Seq<char>> {
    seq![
        seq!['s', 't', 'r', 'u', 'c', 't'],
        seq!['d', 'o', 'u', 'b', 'l', 'e'],
        seq!['s', 'y', 'n', 't', 'a', 'x'],
        seq!['s', 'c', 'h', 'e', 'm', 'a'],
        seq!['b', 'u', 'f', 'f', 'e', 'r'],
        seq!['s', 'o', 'c', 'k', 'e', 't'],
        seq!['s', 'e', 'r', 'v', 'e', 'r'],
        seq!['c', 'l', 'i', 'e', 'n', 't'],
        seq!['t', 'a', 'r', 'g', 'e', 't'],
        seq!['b', 'u', 'i', 'l', 'd', 's'],
        seq!['d', 'e', 'p', 'l', 'o', 'y'],
        seq!['c', 'o', 'n', 'f', 'i', 'g'],
        seq!['c', 'o', 'm', 'm', 'i', 't'],
        seq!['b', 'r', 'a', 'n', 'c', 'h'],
    ]
}

fn in_programming_terms_6(w: &[char]) -> (r: bool)
    ensures
        r == programming_terms_6().contains(w@),
{
    let list: [&[char]; 14] = [
        &['s', 't', 'r', 'u', 'c', 't'],
        &['d', 'o', 'u', 'b', 'l', 'e'],
        &['s', 'y', 'n', 't', 'a', 'x'],
        &['s', 'c', 'h', 'e', 'm', 'a'],
        &['b', 'u', 'f', 'f', 'e', 'r'],
        &['s', 'o', 'c', 'k', 'e', 't'],
        &['s', 'e', 'r', 'v', 'e', 'r'],
        &['c', 'l', 'i', 'e', 'n', 't'],
        &['t', 'a', 'r', 'g', 'e', 't'],
        &['b', 'u', 'i', 'l', 'd', 's'],
        &['d', 'e', 'p', 'l', 'o', 'y'],
        &['c', 'o', 'n', 'f', 'i', 'g'],
        &['c', 'o', 'm', 'm', 'i', 't'],
        &['b', 'r', 'a', 'n', 'c', 'h'],
    ];
    proof {
        assert(list@[0]@ =~= programming_terms_6()[0]);
        assert(list@[1]@ =~= programming_terms_6()[1]);
        assert(list@[2]@ =~= programming_terms_6()[2]);
        assert(list@[3]@ =~= programming_terms_6()[3]);
        assert(list@[4]@ =~= programming_terms_6()[4]);
        assert(list@[5]@ =~= programming_terms_6()[5]);
        assert(list@[6]@ =~= programming_terms_6()[6]);
        assert(list@[7]@ =~= programming_terms_6()[7]);
        assert(list@[8]@ =~= programming_terms_6()[8]);
        assert(list@[9]@ =~= programming_terms_6()[9]);
        assert(list@[10]@ =~= programming_terms_6()[10]);
        assert(list@[11]@ =~= programming_terms_6()[11]);
        assert(list@[12]@ =~= programming_terms_6()[12]);
        assert(list@[13]@ =~= programming_terms_6()[13]);
        assert(views(list@) =~= programming_terms_6());
    }
    in_list(w, &list)
}

/// Programming terms of 7 letters.
pub open spec fn programming_terms_7() -> Seq<Seq<char>> {
    seq![
        seq!['d', 'e', 'f', 'a', 'u', 'l', 't'],
        seq!['b', 'o', 'o', 'l', 'e', 'a', 'n'],
        seq!['c', 'o', 'n', 's', 'o', 'l', 'e'],
        seq!['i', 'n', 't', 'e', 'g', 'e', 'r'],
        seq!['p', 'a', 'c', 'k', 'a', 'g', 'e'],
        seq!['r', 'e', 'q', 'u', 'i', 'r', 'e'],
        seq!['i', 'n', 'c', 'l', 'u', 'd', 'e'],
        seq!['p', 'r', 'i', 'v', 'a', 't', 'e'],
        seq!['e', 'x', 't', 'e', 'n', 'd', 's'],
        seq!['p', 'r', 'o', 'm', 'i', 's', 'e'],
    ]
}

fn in_programming_terms_7(w: &[char]) -> (r: bool)
    ensures
        r == programming_terms_7().contains(w@),
{
    let list: [&[char]; 10] = [
        &['d', 'e', 'f', 'a', 'u', 'l', 't'],
        &['b', 'o', 'o', 'l', 'e', 'a', 'n'],
        &['c', 'o', 'n', 's', 'o', 'l', 'e'],
        &['i', 'n', 't', 'e', 'g', 'e', 'r'],
        &['p', 'a', 'c', 'k', 'a', 'g', 'e'],
        &['r', 'e', 'q', 'u', 'i', 'r', 'e'],
        &['i', 'n', 'c', 'l', 'u', 'd', 'e'],
        &['p', 'r', 'i', 'v', 'a', 't', 'e'],
        &['e', 'x', 't', 'e', 'n', 'd', 's'],
        &['p', 'r', 'o', 'm', 'i', 's', 'e'],
    ];
    proof {
        assert(list@[0]@ =~= programming_terms_7()[0]);
        assert(list@[1]@ =~= programming_terms_7()[1]);
        assert(list@[2]@ =~= programming_terms_7()[2]);
        assert(list@[3]@ =~= programming_terms_7()[3]);
        assert(list@[4]@ =~= programming_terms_7()[4]);
        assert(list@[5]@ =~= programming_terms_7()[5]);
        assert(list@[6]@ =~= programming_terms_7()[6]);
        assert(list@[7]@ =~= programming_terms_7()[7]);
        assert(list@[8]@ =~= programming_terms_7()[8]);
        assert(list@[9]@ =~= programming_terms_7()[9]);
        assert(views(list@) =~= programming_terms_7());
    }
    in_list(w, &list)
}

/// Programming terms of 8 letters.
pub open spec fn programming_terms_8() -> Seq<Seq<char>> {
    seq![
        seq!['f', 'u', 'n', 'c', 't', 'i', 'o', 'n'],
        seq!['a', 'b', 's', 't', 'r', 'a', 'c', 't'],
        seq!['c', 'o', 'n', 't', 'i', 'n', 'u', 'e'],
        seq!['p', 'r', 'o', 'p', 'e', 'r', 't', 'y'],
        seq!['t', 'e', 'm', 'p', 'l', 'a', 't', 'e'],
    ]
}

fn in_programming_terms_8(w: &[char]) -> (r: bool)
    ensures
        r == programming_terms_8().contains(w@),
{
    let list: [&[char]; 5] = [
        &['f', 'u', 'n', 'c', 't', 'i', 'o', 'n'],
        &['a', 'b', 's', 't', 'r', 'a', 'c', 't'],
        &['c', 'o', 'n', 't', 'i', 'n', 'u', 'e'],
        &['p', 'r', 'o', 'p', 'e', 'r', 't', 'y'],
        &['t', 'e', 'm', 'p', 'l', 'a', 't', 'e'],
    ];
    proof {
        assert(list@[0]@ =~= programming_terms_8()[0]);
        assert(list@[1]@ =~= programming_terms_8()[1]);
        assert(list@[2]@ =~= programming_terms_8()[2]);
        assert(list@[3]@ =~= programming_terms_8()[3]);
        assert(list@[4]@ =~= programming_terms_8()[4]);
        assert(views(list@) =~= programming_terms_8());
    }
    in_list(w, &list)
}

/// The common English words, of 2 to 16 letters.
pub open spec fn common_word(w: Seq<char>) -> bool {
    if w.len() == 2 { common_words_2().contains(w) }
    else if w.len() == 3 { common_words_3().contains(w) }
    else if w.len() == 4 { common_words_4().contains(w) }
    else if w.len() == 5 { common_words_5().contains(w) }
    else if w.len() == 6 { common_words_6().contains(w) }
    else if w.len() == 7 { common_words_7().contains(w) }
    else if w.len() == 8 { common_words_8().contains(w) }
    else if w.len() == 9 { common_words_9().contains(w) }
    else if w.len() == 10 { common_words_10().contains(w) }
    else if w.len() == 11 { common_words_11().contains(w) }
    else if w.len() == 12 { common_words_12().contains(w) }
    else if w.len() == 13 { common_words_13().contains(w) }
    else if w.len() == 14 { common_words_14().contains(w) }
    else if w.len() == 15 { common_words_15().contains(w) }
    else if w.len() == 16 { common_words_16().contains(w) }
    else { false }
}

/// The word is a common English word; one of 16 letters or more is compared on its first 16.
pub open spec fn common_word_head(w: Seq<char>) -> bool {
    common_word(if w.len() >= 16 { w.take(16) } else { w })
}

fn has_common_english_word_pattern(w: &[char]) -> (r: bool)
    ensures
        r == common_word_head(w@),
{
    let n = w.len();
    if n < 2 { false }
    else if n == 2 { in_common_words_2(w) }
    else if n == 3 { in_common_words_3(w) }
    else if n == 4 { in_common_words_4(w) }
    else if n == 5 { in_common_words_5(w) }
    else if n == 6 { in_common_words_6(w) }
    else if n == 7 { in_common_words_7(w) }
    else if n == 8 { in_common_words_8(w) }
    else if n == 9 { in_common_words_9(w) }
    else if n == 10 { in_common_words_10(w) }
    else if n == 11 { in_common_words_11(w) }
    else if n == 12 { in_common_words_12(w) }
    else if n == 13 { in_common_words_13(w) }
    else if n == 14 { in_common_words_14(w) }
    else if n == 15 { in_common_words_15(w) }
    else {
        let head = slice_chars(w, 0, 16);
        assert(head@ =~= w@.take(16));
        in_common_words_16(head.as_slice())
    }
}

/// The programming terms.
pub open spec fn programming_term(w: Seq<char>) -> bool {
    if w.len() == 4 {
        programming_terms_4().contains(w)
    } else if w.len() == 5 {
        programming_terms_5().contains(w)
    } else if w.len() == 6 {
        programming_terms_6().contains(w)
    } else if w.len() == 7 {
        programming_terms_7().contains(w)
    } else if w.len() == 8 {
        programming_terms_8().contains(w)
    } else {
        false
    }
}

fn is_programming_term(w: &[char]) -> (r: bool)
    ensures
        r == programming_term(w@),
{
    if w.len() == 4 {
        in_programming_terms_4(w)
    } else if w.len() == 5 {
        in_programming_terms_5(w)
    } else if w.len() == 6 {
        in_programming_terms_6(w)
    } else if w.len() == 7 {
        in_programming_terms_7(w)
    } else if w.len() == 8 {
        in_programming_terms_8(w)
    } else {
        false
    }
}

// ── Words from keys ──────────────────────────────────────────────────────────

/// Letter a key types, or '#' for a key that types none.
pub open spec fn key_letter(k: u16) -> char {
    match keys::letter_of(k) {
        Some(c) => c,
        None => '#',
    }
}

/// The word a key sequence spells.
pub open spec fn key_word(ks: Seq<u16>) -> Seq<char> {
    Seq::new(ks.len(), |i: int| key_letter(ks[i]))
}

/// "of", "off" and "hex", recognised besides the word tables.
pub open spec fn extra_word(w: Seq<char>) -> bool {
    w == seq!['o', 'f'] || w == seq!['o', 'f', 'f'] || w == seq!['h', 'e', 'x']
}

/// The key sequence is English: at least two keys, and the word they spell is one of the
/// extra words, a common word (compared on its first 16 letters when longer), or starts with
/// a programming term of four to eight letters.
pub open spec fn english_keys(ks: Seq<u16>) -> bool {
    let w = key_word(ks);
    &&& ks.len() >= 2
    &&& extra_word(w) || common_word_head(w)
        || exists|n: int| 4 <= n <= 8 && n <= w.len() && #[trigger] programming_term(w.take(n))
}

fn key_letters(ks: &[u16]) -> (r: Vec<char>)
    ensures
        r@ == key_word(ks@),
{
    let mut out: Vec<char> = Vec::new();
    let mut i: usize = 0;
    while i < ks.len()
        invariant
            i <= ks@.len(),
            out@ == key_word(ks@).subrange(0, i as int),
        decreases ks@.len() - i,
    {
        let c = match keys::letter(ks[i]) {
            Some(c) => c,
            None => '#',
        };
        out.push(c);
        i = i + 1;
        assert(out@ =~= key_word(ks@).subrange(0, i as int));
    }
    assert(out@ =~= key_word(ks@));
    out
}

fn is_extra_word(w: &[char]) -> (r: bool)
    ensures
        r == extra_word(w@),
{
    let of: [char; 2] = ['o', 'f'];
    let off: [char; 3] = ['o', 'f', 'f'];
    let hex: [char; 3] = ['h', 'e', 'x'];
    assert(of@ =~= seq!['o', 'f']);
    assert(off@ =~= seq!['o', 'f', 'f']);
    assert(hex@ =~= seq!['h', 'e', 'x']);
    eq_chars(w, &of) || eq_chars(w, &off) || eq_chars(w, &hex)
}

fn is_keys_english(ks: &[u16]) -> (r: bool)
    ensures
        r == english_keys(ks@),
{
    if ks.len() < 2 {
        return false;
    }
    let w = key_letters(ks);
    if is_extra_word(w.as_slice()) {
        return true;
    }
    if has_common_english_word_pattern(w.as_slice()) {
        return true;
    }
    has_programming_term_pattern(w.as_slice())
}

/// Whether the word starts with a programming term of four to eight letters.
fn has_programming_term_pattern(w: &[char]) -> (r: bool)
    ensures
        r == exists|n: int| 4 <= n <= 8 && n <= w@.len() && #[trigger] programming_term(w@.take(n)),
{
    let top: usize = if w.len() < 8 { w.len() } else { 8 };
    let mut n: usize = 4;
    while n <= top
        invariant
            4 <= n,
            top <= 8,
            top <= w@.len(),
            top == w@.len() || top == 8,
            forall|m: int| 4 <= m < n && m <= w@.len() ==> !#[trigger] programming_term(w@.take(m)),
        decreases top + 1 - n,
    {
        let prefix = slice_chars(w, 0, n);
        assert(prefix@ =~= w@.take(n as int));
        if is_programming_term(prefix.as_slice()) {
            return true;
        }
        n = n + 1;
    }
    false
}

/// Common English words and programming terms, recognised from key sequences.
pub struct Dictionary;

impl Dictionary {
    /// Whether the keys spell a common English word or start with a programming term.
    pub fn is_english(ks: &[u16]) -> (r: bool)
        ensures
            r == english_keys(ks@),
    {
        if ks.len() < 2 {
            return false;
        }
        is_keys_english(ks)
    }

    /// The same check on keystrokes with their case.
    pub fn is_common_english_word(raw_keys: &[(u16, bool)]) -> (r: bool)
        ensures
            r == english_keys(key_codes(raw_keys@)),
    {
        let mut ks: Vec<u16> = Vec::new();
        let mut i: usize = 0;
        while i < raw_keys.len()
            invariant
                i <= raw_keys@.len(),
                ks@ == key_codes(raw_keys@.subrange(0, i as int)),
            decreases raw_keys@.len() - i,
        {
            ks.push(raw_keys[i].0);
            i = i + 1;
            assert(ks@ =~= key_codes(raw_keys@.subrange(0, i as int)));
        }
        assert(raw_keys@.subrange(0, raw_keys@.len() as int) =~= raw_keys@);
        if ks.len() < 2 {
            return false;
        }
        is_keys_english(ks.as_slice())
    }
}

// ── Words from text ──────────────────────────────────────────────────────────

/// Text with its ASCII capitals lowered.
pub open spec fn lowered(w: Seq<char>) -> Seq<char> {
    w.map_values(|c: char| keys::lower_spec(c))
}

/// The text, lowered, is a common word, an extra word or a programming term.
pub open spec fn english_word(w: Seq<char>) -> bool {
    let l = lowered(w);
    common_word_head(l) || extra_word(l) || programming_term(l)
}

/// Whether the text is a known English word.
pub fn is_english_word(text: &str) -> (r: bool)
    ensures
        r == english_word(text@),
{
    let cs = str_chars(text);
    let mut l: Vec<char> = Vec::new();
    let mut i: usize = 0;
    while i < cs.len()
        invariant
            cs@ == text@,
            i <= cs@.len(),
            l@ == lowered(cs@.subrange(0, i as int)),
        decreases cs@.len() - i,
    {
        l.push(keys::to_lower(cs[i]));
        i = i + 1;
        assert(l@ =~= lowered(cs@.subrange(0, i as int)));
    }
    assert(cs@.subrange(0, cs@.len() as int) =~= cs@);
    has_common_english_word_pattern(l.as_slice()) || is_extra_word(l.as_slice()) || is_programming_term(l.as_slice())
}

/// English word detection for text.
pub struct EnglishDictAdapter;

impl EnglishDictAdapter {
    pub fn new() -> (r: EnglishDictAdapter) {
        EnglishDictAdapter
    }

    /// 100 for a known English word, 0 otherwise.
    pub fn confidence(&self, text: &str) -> (r: u8)
        ensures
            r == (if english_word(text@) { 100u8 } else { 0u8 }),
    {
        if is_english_word(text) { 100 } else { 0 }
    }

    pub fn is_english(&self, text: &str) -> (r: bool)
        ensures
            r == english_word(text@),
    {
        is_english_word(text)
    }
}

impl Default for EnglishDictAdapter {
    fn default() -> (r: EnglishDictAdapter) {
        EnglishDictAdapter::new()
    }
}

/// Repository kept for callers of the English dictionary it used to hold; it recognises
/// nothing.
#[derive(Debug, Clone, Copy, Default)]
pub struct DictionaryRepo;

impl DictionaryRepo {
    pub fn new() -> (r: DictionaryRepo) {
        DictionaryRepo
    }

    /// Always `false`.
    pub fn is_english_keys(&self, ks: &[u16]) -> (r: bool)
        ensures
            !r,
    {
        false
    }

    /// Always `false`.
    pub fn is_common_english_word(&self, raw_keys: &[(u16, bool)]) -> (r: bool)
        ensures
            !r,
    {
        false
    }

    /// Always `false`.
    pub fn is_english_text(&self, text: &CharSequence) -> (r: bool)
        ensures
            !r,
    {
        false
    }
}

} // verus!
