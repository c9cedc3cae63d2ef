//! The rows of the catalogs, checked one by one: every pattern is shaped,
//! and every slot of every scene is a plain text that is not empty. Also one
//! scene that holds none of the vocabulary kept for the higher levels.

use vstd::prelude::*;
use crate::catalog::{
    pattern_view,
    scene_view,
    LEVEL2_PLUS_TOKENS,
    LEVEL3_PLUS_TOKENS,
    PATTERN_COUNT,
    SCENE_COUNT,
};
use crate::sampler::any_token_in;
use crate::shape::{is_plain, pattern_shaped, shaped_expression, shaped_template, well_shaped};
use crate::text::{occurs_at, spec_contains, strs_of};
use crate::text_lemmas::{lacks, lemma_lacks_concat, lemma_no_occurrence_inside};

verus! {

/// Whether the three slots of the scene in row `i` are plain texts that are
/// not empty.
pub open spec fn scene_is_plain(i: int) -> bool {
    &&& is_plain(scene_view(i).p1) && scene_view(i).p1.len() > 0
    &&& is_plain(scene_view(i).p2) && scene_view(i).p2.len() > 0
    &&& is_plain(scene_view(i).p3) && scene_view(i).p3.len() > 0
}

proof fn lemma_pattern_row_0()
    ensures
        well_shaped(pattern_view(0)),
{
    reveal_strlit("因为{A}，所以{B}");
    reveal_strlit("^因为.+，所以.+$");
    reveal_strlit("因为");
    reveal_strlit("所以");
    let pre = seq!['因', '为'];
    let mid = seq!['，', '所', '以'];
    let p = pattern_view(0);
    assert(p.tpl =~= shaped_template(pre, mid, true));
    assert(p.check_regex =~= shaped_expression(pre, mid));
    assert(is_plain(pre));
    assert(is_plain(mid));
    let m0 = "因为"@;
    let m1 = "所以"@;
    assert(p.strong_markers =~= seq![m0, m1]);
    assert(pre.subrange(0, 2) =~= m0);
    assert(occurs_at(pre, m0, 0));
    assert(mid.subrange(1, 3) =~= m1);
    assert(occurs_at(mid, m1, 1));
    assert(pattern_shaped(p, pre, mid, true));
}

proof fn lemma_pattern_row_1()
    ensures
        well_shaped(pattern_view(1)),
{
    reveal_strlit("由于{A}，因此{B}");
    reveal_strlit("^由于.+，因此.+$");
    reveal_strlit("由于");
    reveal_strlit("因此");
    let pre = seq!['由', '于'];
    let mid = seq!['，', '因', '此'];
    let p = pattern_view(1);
    assert(p.tpl =~= shaped_template(pre, mid, true));
    assert(p.check_regex =~= shaped_expression(pre, mid));
    assert(is_plain(pre));
    assert(is_plain(mid));
    let m0 = "由于"@;
    let m1 = "因此"@;
    assert(p.strong_markers =~= seq![m0, m1]);
    assert(pre.subrange(0, 2) =~= m0);
    assert(occurs_at(pre, m0, 0));
    assert(mid.subrange(1, 3) =~= m1);
    assert(occurs_at(mid, m1, 1));
    assert(pattern_shaped(p, pre, mid, true));
}

proof fn lemma_pattern_row_2()
    ensures
        well_shaped(pattern_view(2)),
{
    reveal_strlit("既然{A}，就{B}");
    reveal_strlit("^既然.+，就.+$");
    reveal_strlit("既然");
    reveal_strlit("");
    let pre = seq!['既', '然'];
    let mid = seq!['，', '就'];
    let p = pattern_view(2);
    assert(p.tpl =~= shaped_template(pre, mid, true));
    assert(p.check_regex =~= shaped_expression(pre, mid));
    assert(is_plain(pre));
    assert(is_plain(mid));
    let m0 = "既然"@;
    assert(p.strong_markers =~= seq![m0]);
    assert(pre.subrange(0, 2) =~= m0);
    assert(occurs_at(pre, m0, 0));
    assert(pattern_shaped(p, pre, mid, true));
}

proof fn lemma_pattern_row_3()
    ensures
        well_shaped(pattern_view(3)),
{
    reveal_strlit("因为{A}，{B}");
    reveal_strlit("^因为.+，.+$");
    reveal_strlit("因为");
    reveal_strlit("");
    let pre = seq!['因', '为'];
    let mid = seq!['，'];
    let p = pattern_view(3);
    assert(p.tpl =~= shaped_template(pre, mid, true));
    assert(p.check_regex =~= shaped_expression(pre, mid));
    assert(is_plain(pre));
    assert(is_plain(mid));
    let m0 = "因为"@;
    assert(p.strong_markers =~= seq![m0]);
    assert(pre.subrange(0, 2) =~= m0);
    assert(occurs_at(pre, m0, 0));
    assert(pattern_shaped(p, pre, mid, true));
}

proof fn lemma_pattern_row_4()
    ensures
        well_shaped(pattern_view(4)),
{
    reveal_strlit("由于{A}，{B}");
    reveal_strlit("^由于.+，.+$");
    reveal_strlit("由于");
    reveal_strlit("");
    let pre = seq!['由', '于'];
    let mid = seq!['，'];
    let p = pattern_view(4);
    assert(p.tpl =~= shaped_template(pre, mid, true));
    assert(p.check_regex =~= shaped_expression(pre, mid));
    assert(is_plain(pre));
    assert(is_plain(mid));
    let m0 = "由于"@;
    assert(p.strong_markers =~= seq![m0]);
    assert(pre.subrange(0, 2) =~= m0);
    assert(occurs_at(pre, m0, 0));
    assert(pattern_shaped(p, pre, mid, true));
}

proof fn lemma_pattern_row_5()
    ensures
        well_shaped(pattern_view(5)),
{
    reveal_strlit("正因为{A}，{B}");
    reveal_strlit("^正因为.+，.+$");
    reveal_strlit("正因为");
    reveal_strlit("");
    let pre = seq!['正', '因', '为'];
    let mid = seq!['，'];
    let p = pattern_view(5);
    assert(p.tpl =~= shaped_template(pre, mid, true));
    assert(p.check_regex =~= shaped_expression(pre, mid));
    assert(is_plain(pre));
    assert(is_plain(mid));
    let m0 = "正因为"@;
    assert(p.strong_markers =~= seq![m0]);
    assert(pre.subrange(0, 3) =~= m0);
    assert(occurs_at(pre, m0, 0));
    assert(pattern_shaped(p, pre, mid, true));
}

proof fn lemma_pattern_row_6()
    ensures
        well_shaped(pattern_view(6)),
{
    reveal_strlit("{B}，是因为{A}");
    reveal_strlit("^.+，是因为.+$");
    reveal_strlit("是因为");
    reveal_strlit("");
    let pre = Seq::<char>::empty();
    let mid = seq!['，', '是', '因', '为'];
    let p = pattern_view(6);
    assert(p.tpl =~= shaped_template(pre, mid, false));
    assert(p.check_regex =~= shaped_expression(pre, mid));
    assert(is_plain(pre));
    assert(is_plain(mid));
    let m0 = "是因为"@;
    assert(p.strong_markers =~= seq![m0]);
    assert(mid.subrange(1, 4) =~= m0);
    assert(occurs_at(mid, m0, 1));
    assert(pattern_shaped(p, pre, mid, false));
}

proof fn lemma_pattern_row_7()
    ensures
        well_shaped(pattern_view(7)),
{
    reveal_strlit("之所以{B}，是因为{A}");
    reveal_strlit("^之所以.+，是因为.+$");
    reveal_strlit("之所以");
    reveal_strlit("是因为");
    let pre = seq!['之', '所', '以'];
    let mid = seq!['，', '是', '因', '为'];
    let p = pattern_view(7);
    assert(p.tpl =~= shaped_template(pre, mid, false));
    assert(p.check_regex =~= shaped_expression(pre, mid));
    assert(is_plain(pre));
    assert(is_plain(mid));
    let m0 = "之所以"@;
    let m1 = "是因为"@;
    assert(p.strong_markers =~= seq![m0, m1]);
    assert(pre.subrange(0, 3) =~= m0);
    assert(occurs_at(pre, m0, 0));
    assert(mid.subrange(1, 4) =~= m1);
    assert(occurs_at(mid, m1, 1));
    assert(pattern_shaped(p, pre, mid, false));
}

proof fn lemma_pattern_row_8()
    ensures
        well_shaped(pattern_view(8)),
{
    reveal_strlit("{B}的原因在于{A}");
    reveal_strlit("^.+的原因在于.+$");
    reveal_strlit("原因在于");
    reveal_strlit("");
    let pre = Seq::<char>::empty();
    let mid = seq!['的', '原', '因', '在', '于'];
    let p = pattern_view(8);
    assert(p.tpl =~= shaped_template(pre, mid, false));
    assert(p.check_regex =~= shaped_expression(pre, mid));
    assert(is_plain(pre));
    assert(is_plain(mid));
    let m0 = "原因在于"@;
    assert(p.strong_markers =~= seq![m0]);
    assert(mid.subrange(1, 5) =~= m0);
    assert(occurs_at(mid, m0, 1));
    assert(pattern_shaped(p, pre, mid, false));
}

proof fn lemma_pattern_row_9()
    ensures
        well_shaped(pattern_view(9)),
{
    reveal_strlit("{A}，导致{B}");
    reveal_strlit("^.+，导致.+$");
    reveal_strlit("导致");
    reveal_strlit("");
    let pre = Seq::<char>::empty();
    let mid = seq!['，', '导', '致'];
    let p = pattern_view(9);
    assert(p.tpl =~= shaped_template(pre, mid, true));
    assert(p.check_regex =~= shaped_expression(pre, mid));
    assert(is_plain(pre));
    assert(is_plain(mid));
    let m0 = "导致"@;
    assert(p.strong_markers =~= seq![m0]);
    assert(mid.subrange(1, 3) =~= m0);
    assert(occurs_at(mid, m0, 1));
    assert(pattern_shaped(p, pre, mid, true));
}

proof fn lemma_pattern_row_10()
    ensures
        well_shaped(pattern_view(10)),
{
    reveal_strlit("{A}，使得{B}");
    reveal_strlit("^.+，使得.+$");
    reveal_strlit("使得");
    reveal_strlit("");
    let pre = Seq::<char>::empty();
    let mid = seq!['，', '使', '得'];
    let p = pattern_view(10);
    assert(p.tpl =~= shaped_template(pre, mid, true));
    assert(p.check_regex =~= shaped_expression(pre, mid));
    assert(is_plain(pre));
    assert(is_plain(mid));
    let m0 = "使得"@;
    assert(p.strong_markers =~= seq![m0]);
    assert(mid.subrange(1, 3) =~= m0);
    assert(occurs_at(mid, m0, 1));
    assert(pattern_shaped(p, pre, mid, true));
}

proof fn lemma_pattern_row_11()
    ensures
        well_shaped(pattern_view(11)),
{
    reveal_strlit("{A}，所以{B}");
    reveal_strlit("^.+，所以.+$");
    reveal_strlit("所以");
    reveal_strlit("");
    let pre = Seq::<char>::empty();
    let mid = seq!['，', '所', '以'];
    let p = pattern_view(11);
    assert(p.tpl =~= shaped_template(pre, mid, true));
    assert(p.check_regex =~= shaped_expression(pre, mid));
    assert(is_plain(pre));
    assert(is_plain(mid));
    let m0 = "所以"@;
    assert(p.strong_markers =~= seq![m0]);
    assert(mid.subrange(1, 3) =~= m0);
    assert(occurs_at(mid, m0, 1));
    assert(pattern_shaped(p, pre, mid, true));
}

proof fn lemma_pattern_row_12()
    ensures
        well_shaped(pattern_view(12)),
{
    reveal_strlit("{A}，因此{B}");
    reveal_strlit("^.+，因此.+$");
    reveal_strlit("因此");
    reveal_strlit("");
    let pre = Seq::<char>::empty();
    let mid = seq!['，', '因', '此'];
    let p = pattern_view(12);
    assert(p.tpl =~= shaped_template(pre, mid, true));
    assert(p.check_regex =~= shaped_expression(pre, mid));
    assert(is_plain(pre));
    assert(is_plain(mid));
    let m0 = "因此"@;
    assert(p.strong_markers =~= seq![m0]);
    assert(mid.subrange(1, 3) =~= m0);
    assert(occurs_at(mid, m0, 1));
    assert(pattern_shaped(p, pre, mid, true));
}

proof fn lemma_pattern_row_13()
    ensures
        well_shaped(pattern_view(13)),
{
    reveal_strlit("{A}，因而{B}");
    reveal_strlit("^.+，因而.+$");
    reveal_strlit("因而");
    reveal_strlit("");
    let pre = Seq::<char>::empty();
    let mid = seq!['，', '因', '而'];
    let p = pattern_view(13);
    assert(p.tpl =~= shaped_template(pre, mid, true));
    assert(p.check_regex =~= shaped_expression(pre, mid));
    assert(is_plain(pre));
    assert(is_plain(mid));
    let m0 = "因而"@;
    assert(p.strong_markers =~= seq![m0]);
    assert(mid.subrange(1, 3) =~= m0);
    assert(occurs_at(mid, m0, 1));
    assert(pattern_shaped(p, pre, mid, true));
}

proof fn lemma_pattern_row_14()
    ensures
        well_shaped(pattern_view(14)),
{
    reveal_strlit("{A}，于是{B}");
    reveal_strlit("^.+，于是.+$");
    reveal_strlit("于是");
    reveal_strlit("");
    let pre = Seq::<char>::empty();
    let mid = seq!['，', '于', '是'];
    let p = pattern_view(14);
    assert(p.tpl =~= shaped_template(pre, mid, true));
    assert(p.check_regex =~= shaped_expression(pre, mid));
    assert(is_plain(pre));
    assert(is_plain(mid));
    let m0 = "于是"@;
    assert(p.strong_markers =~= seq![m0]);
    assert(mid.subrange(1, 3) =~= m0);
    assert(occurs_at(mid, m0, 1));
    assert(pattern_shaped(p, pre, mid, true));
}

proof fn lemma_pattern_row_15()
    ensures
        well_shaped(pattern_view(15)),
{
    reveal_strlit("{A}，结果{B}");
    reveal_strlit("^.+，结果.+$");
    reveal_strlit("结果");
    reveal_strlit("");
    let pre = Seq::<char>::empty();
    let mid = seq!['，', '结', '果'];
    let p = pattern_view(15);
    assert(p.tpl =~= shaped_template(pre, mid, true));
    assert(p.check_regex =~= shaped_expression(pre, mid));
    assert(is_plain(pre));
    assert(is_plain(mid));
    let m0 = "结果"@;
    assert(p.strong_markers =~= seq![m0]);
    assert(mid.subrange(1, 3) =~= m0);
    assert(occurs_at(mid, m0, 1));
    assert(pattern_shaped(p, pre, mid, true));
}

proof fn lemma_pattern_row_16()
    ensures
        well_shaped(pattern_view(16)),
{
    reveal_strlit("{A}，结果是{B}");
    reveal_strlit("^.+，结果是.+$");
    reveal_strlit("结果是");
    reveal_strlit("");
    let pre = Seq::<char>::empty();
    let mid = seq!['，', '结', '果', '是'];
    let p = pattern_view(16);
    assert(p.tpl =~= shaped_template(pre, mid, true));
    assert(p.check_regex =~= shaped_expression(pre, mid));
    assert(is_plain(pre));
    assert(is_plain(mid));
    let m0 = "结果是"@;
    assert(p.strong_markers =~= seq![m0]);
    assert(mid.subrange(1, 4) =~= m0);
    assert(occurs_at(mid, m0, 1));
    assert(pattern_shaped(p, pre, mid, true));
}

proof fn lemma_pattern_row_17()
    ensures
        well_shaped(pattern_view(17)),
{
    reveal_strlit("{A}，从而{B}");
    reveal_strlit("^.+，从而.+$");
    reveal_strlit("从而");
    reveal_strlit("");
    let pre = Seq::<char>::empty();
    let mid = seq!['，', '从', '而'];
    let p = pattern_view(17);
    assert(p.tpl =~= shaped_template(pre, mid, true));
    assert(p.check_regex =~= shaped_expression(pre, mid));
    assert(is_plain(pre));
    assert(is_plain(mid));
    let m0 = "从而"@;
    assert(p.strong_markers =~= seq![m0]);
    assert(mid.subrange(1, 3) =~= m0);
    assert(occurs_at(mid, m0, 1));
    assert(pattern_shaped(p, pre, mid, true));
}

proof fn lemma_pattern_row_18()
    ensures
        well_shaped(pattern_view(18)),
{
    reveal_strlit("{A}，进而{B}");
    reveal_strlit("^.+，进而.+$");
    reveal_strlit("进而");
    reveal_strlit("");
    let pre = Seq::<char>::empty();
    let mid = seq!['，', '进', '而'];
    let p = pattern_view(18);
    assert(p.tpl =~= shaped_template(pre, mid, true));
    assert(p.check_regex =~= shaped_expression(pre, mid));
    assert(is_plain(pre));
    assert(is_plain(mid));
    let m0 = "进而"@;
    assert(p.strong_markers =~= seq![m0]);
    assert(mid.subrange(1, 3) =~= m0);
    assert(occurs_at(mid, m0, 1));
    assert(pattern_shaped(p, pre, mid, true));
}

proof fn lemma_pattern_row_19()
    ensures
        well_shaped(pattern_view(19)),
{
    reveal_strlit("{A}，以至于{B}");
    reveal_strlit("^.+，以至于.+$");
    reveal_strlit("以至于");
    reveal_strlit("");
    let pre = Seq::<char>::empty();
    let mid = seq!['，', '以', '至', '于'];
    let p = pattern_view(19);
    assert(p.tpl =~= shaped_template(pre, mid, true));
    assert(p.check_regex =~= shaped_expression(pre, mid));
    assert(is_plain(pre));
    assert(is_plain(mid));
    let m0 = "以至于"@;
    assert(p.strong_markers =~= seq![m0]);
    assert(mid.subrange(1, 4) =~= m0);
    assert(occurs_at(mid, m0, 1));
    assert(pattern_shaped(p, pre, mid, true));
}

proof fn lemma_pattern_row_20()
    ensures
        well_shaped(pattern_view(20)),
{
    reveal_strlit("如果{A}，就{B}");
    reveal_strlit("^如果.+，就.+$");
    reveal_strlit("如果");
    reveal_strlit("");
    let pre = seq!['如', '果'];
    let mid = seq!['，', '就'];
    let p = pattern_view(20);
    assert(p.tpl =~= shaped_template(pre, mid, true));
    assert(p.check_regex =~= shaped_expression(pre, mid));
    assert(is_plain(pre));
    assert(is_plain(mid));
    let m0 = "如果"@;
    assert(p.strong_markers =~= seq![m0]);
    assert(pre.subrange(0, 2) =~= m0);
    assert(occurs_at(pre, m0, 0));
    assert(pattern_shaped(p, pre, mid, true));
}

proof fn lemma_pattern_row_21()
    ensures
        well_shaped(pattern_view(21)),
{
    reveal_strlit("要是{A}，就{B}");
    reveal_strlit("^要是.+，就.+$");
    reveal_strlit("要是");
    reveal_strlit("");
    let pre = seq!['要', '是'];
    let mid = seq!['，', '就'];
    let p = pattern_view(21);
    assert(p.tpl =~= shaped_template(pre, mid, true));
    assert(p.check_regex =~= shaped_expression(pre, mid));
    assert(is_plain(pre));
    assert(is_plain(mid));
    let m0 = "要是"@;
    assert(p.strong_markers =~= seq![m0]);
    assert(pre.subrange(0, 2) =~= m0);
    assert(occurs_at(pre, m0, 0));
    assert(pattern_shaped(p, pre, mid, true));
}

proof fn lemma_pattern_row_22()
    ensures
        well_shaped(pattern_view(22)),
{
    reveal_strlit("假如{A}，就{B}");
    reveal_strlit("^假如.+，就.+$");
    reveal_strlit("假如");
    reveal_strlit("");
    let pre = seq!['假', '如'];
    let mid = seq!['，', '就'];
    let p = pattern_view(22);
    assert(p.tpl =~= shaped_template(pre, mid, true));
    assert(p.check_regex =~= shaped_expression(pre, mid));
    assert(is_plain(pre));
    assert(is_plain(mid));
    let m0 = "假如"@;
    assert(p.strong_markers =~= seq![m0]);
    assert(pre.subrange(0, 2) =~= m0);
    assert(occurs_at(pre, m0, 0));
    assert(pattern_shaped(p, pre, mid, true));
}

proof fn lemma_pattern_row_23()
    ensures
        well_shaped(pattern_view(23)),
{
    reveal_strlit("只要{A}，就{B}");
    reveal_strlit("^只要.+，就.+$");
    reveal_strlit("只要");
    reveal_strlit("");
    let pre = seq!['只', '要'];
    let mid = seq!['，', '就'];
    let p = pattern_view(23);
    assert(p.tpl =~= shaped_template(pre, mid, true));
    assert(p.check_regex =~= shaped_expression(pre, mid));
    assert(is_plain(pre));
    assert(is_plain(mid));
    let m0 = "只要"@;
    assert(p.strong_markers =~= seq![m0]);
    assert(pre.subrange(0, 2) =~= m0);
    assert(occurs_at(pre, m0, 0));
    assert(pattern_shaped(p, pre, mid, true));
}

proof fn lemma_pattern_row_24()
    ensures
        well_shaped(pattern_view(24)),
{
    reveal_strlit("只有{A}，才{B}");
    reveal_strlit("^只有.+，才.+$");
    reveal_strlit("只有");
    reveal_strlit("");
    let pre = seq!['只', '有'];
    let mid = seq!['，', '才'];
    let p = pattern_view(24);
    assert(p.tpl =~= shaped_template(pre, mid, true));
    assert(p.check_regex =~= shaped_expression(pre, mid));
    assert(is_plain(pre));
    assert(is_plain(mid));
    let m0 = "只有"@;
    assert(p.strong_markers =~= seq![m0]);
    assert(pre.subrange(0, 2) =~= m0);
    assert(occurs_at(pre, m0, 0));
    assert(pattern_shaped(p, pre, mid, true));
}

proof fn lemma_pattern_row_25()
    ensures
        well_shaped(pattern_view(25)),
{
    reveal_strlit("除非{A}，否则{B}");
    reveal_strlit("^除非.+，否则.+$");
    reveal_strlit("除非");
    reveal_strlit("否则");
    let pre = seq!['除', '非'];
    let mid = seq!['，', '否', '则'];
    let p = pattern_view(25);
    assert(p.tpl =~= shaped_template(pre, mid, true));
    assert(p.check_regex =~= shaped_expression(pre, mid));
    assert(is_plain(pre));
    assert(is_plain(mid));
    let m0 = "除非"@;
    let m1 = "否则"@;
    assert(p.strong_markers =~= seq![m0, m1]);
    assert(pre.subrange(0, 2) =~= m0);
    assert(occurs_at(pre, m0, 0));
    assert(mid.subrange(1, 3) =~= m1);
    assert(occurs_at(mid, m1, 1));
    assert(pattern_shaped(p, pre, mid, true));
}

proof fn lemma_pattern_row_26()
    ensures
        well_shaped(pattern_view(26)),
{
    reveal_strlit("{A}的话，{B}");
    reveal_strlit("^.+的话，.+$");
    reveal_strlit("的话");
    reveal_strlit("");
    let pre = Seq::<char>::empty();
    let mid = seq!['的', '话', '，'];
    let p = pattern_view(26);
    assert(p.tpl =~= shaped_template(pre, mid, true));
    assert(p.check_regex =~= shaped_expression(pre, mid));
    assert(is_plain(pre));
    assert(is_plain(mid));
    let m0 = "的话"@;
    assert(p.strong_markers =~= seq![m0]);
    assert(mid.subrange(0, 2) =~= m0);
    assert(occurs_at(mid, m0, 0));
    assert(pattern_shaped(p, pre, mid, true));
}

proof fn lemma_pattern_row_27()
    ensures
        well_shaped(pattern_view(27)),
{
    reveal_strlit("{A}，否则{B}");
    reveal_strlit("^.+，否则.+$");
    reveal_strlit("否则");
    reveal_strlit("");
    let pre = Seq::<char>::empty();
    let mid = seq!['，', '否', '则'];
    let p = pattern_view(27);
    assert(p.tpl =~= shaped_template(pre, mid, true));
    assert(p.check_regex =~= shaped_expression(pre, mid));
    assert(is_plain(pre));
    assert(is_plain(mid));
    let m0 = "否则"@;
    assert(p.strong_markers =~= seq![m0]);
    assert(mid.subrange(1, 3) =~= m0);
    assert(occurs_at(mid, m0, 1));
    assert(pattern_shaped(p, pre, mid, true));
}

proof fn lemma_pattern_row_28()
    ensures
        well_shaped(pattern_view(28)),
{
    reveal_strlit("在{A}的情况下，{B}");
    reveal_strlit("^在.+的情况下，.+$");
    reveal_strlit("情况下");
    reveal_strlit("");
    let pre = seq!['在'];
    let mid = seq!['的', '情', '况', '下', '，'];
    let p = pattern_view(28);
    assert(p.tpl =~= shaped_template(pre, mid, true));
    assert(p.check_regex =~= shaped_expression(pre, mid));
    assert(is_plain(pre));
    assert(is_plain(mid));
    let m0 = "情况下"@;
    assert(p.strong_markers =~= seq![m0]);
    assert(mid.subrange(1, 4) =~= m0);
    assert(occurs_at(mid, m0, 1));
    assert(pattern_shaped(p, pre, mid, true));
}

proof fn lemma_pattern_row_29()
    ensures
        well_shaped(pattern_view(29)),
{
    reveal_strlit("虽然{A}，但是{B}");
    reveal_strlit("^虽然.+，但是.+$");
    reveal_strlit("虽然");
    reveal_strlit("但是");
    let pre = seq!['虽', '然'];
    let mid = seq!['，', '但', '是'];
    let p = pattern_view(29);
    assert(p.tpl =~= shaped_template(pre, mid, true));
    assert(p.check_regex =~= shaped_expression(pre, mid));
    assert(is_plain(pre));
    assert(is_plain(mid));
    let m0 = "虽然"@;
    let m1 = "但是"@;
    assert(p.strong_markers =~= seq![m0, m1]);
    assert(pre.subrange(0, 2) =~= m0);
    assert(occurs_at(pre, m0, 0));
    assert(mid.subrange(1, 3) =~= m1);
    assert(occurs_at(mid, m1, 1));
    assert(pattern_shaped(p, pre, mid, true));
}

proof fn lemma_pattern_row_30()
    ensures
        well_shaped(pattern_view(30)),
{
    reveal_strlit("虽然{A}，但{B}");
    reveal_strlit("^虽然.+，但.+$");
    reveal_strlit("虽然");
    reveal_strlit("");
    let pre = seq!['虽', '然'];
    let mid = seq!['，', '但'];
    let p = pattern_view(30);
    assert(p.tpl =~= shaped_template(pre, mid, true));
    assert(p.check_regex =~= shaped_expression(pre, mid));
    assert(is_plain(pre));
    assert(is_plain(mid));
    let m0 = "虽然"@;
    assert(p.strong_markers =~= seq![m0]);
    assert(pre.subrange(0, 2) =~= m0);
    assert(occurs_at(pre, m0, 0));
    assert(pattern_shaped(p, pre, mid, true));
}

proof fn lemma_pattern_row_31()
    ensures
        well_shaped(pattern_view(31)),
{
    reveal_strlit("尽管{A}，但{B}");
    reveal_strlit("^尽管.+，但.+$");
    reveal_strlit("尽管");
    reveal_strlit("");
    let pre = seq!['尽', '管'];
    let mid = seq!['，', '但'];
    let p = pattern_view(31);
    assert(p.tpl =~= shaped_template(pre, mid, true));
    assert(p.check_regex =~= shaped_expression(pre, mid));
    assert(is_plain(pre));
    assert(is_plain(mid));
    let m0 = "尽管"@;
    assert(p.strong_markers =~= seq![m0]);
    assert(pre.subrange(0, 2) =~= m0);
    assert(occurs_at(pre, m0, 0));
    assert(pattern_shaped(p, pre, mid, true));
}

proof fn lemma_pattern_row_32()
    ensures
        well_shaped(pattern_view(32)),
{
    reveal_strlit("尽管{A}，仍然{B}");
    reveal_strlit("^尽管.+，仍然.+$");
    reveal_strlit("尽管");
    reveal_strlit("仍然");
    let pre = seq!['尽', '管'];
    let mid = seq!['，', '仍', '然'];
    let p = pattern_view(32);
    assert(p.tpl =~= shaped_template(pre, mid, true));
    assert(p.check_regex =~= shaped_expression(pre, mid));
    assert(is_plain(pre));
    assert(is_plain(mid));
    let m0 = "尽管"@;
    let m1 = "仍然"@;
    assert(p.strong_markers =~= seq![m0, m1]);
    assert(pre.subrange(0, 2) =~= m0);
    assert(occurs_at(pre, m0, 0));
    assert(mid.subrange(1, 3) =~= m1);
    assert(occurs_at(mid, m1, 1));
    assert(pattern_shaped(p, pre, mid, true));
}

proof fn lemma_pattern_row_33()
    ensures
        well_shaped(pattern_view(33)),
{
    reveal_strlit("{A}，不过{B}");
    reveal_strlit("^.+，不过.+$");
    reveal_strlit("不过");
    reveal_strlit("");
    let pre = Seq::<char>::empty();
    let mid = seq!['，', '不', '过'];
    let p = pattern_view(33);
    assert(p.tpl =~= shaped_template(pre, mid, true));
    assert(p.check_regex =~= shaped_expression(pre, mid));
    assert(is_plain(pre));
    assert(is_plain(mid));
    let m0 = "不过"@;
    assert(p.strong_markers =~= seq![m0]);
    assert(mid.subrange(1, 3) =~= m0);
    assert(occurs_at(mid, m0, 1));
    assert(pattern_shaped(p, pre, mid, true));
}

proof fn lemma_pattern_row_34()
    ensures
        well_shaped(pattern_view(34)),
{
    reveal_strlit("{A}，可是{B}");
    reveal_strlit("^.+，可是.+$");
    reveal_strlit("可是");
    reveal_strlit("");
    let pre = Seq::<char>::empty();
    let mid = seq!['，', '可', '是'];
    let p = pattern_view(34);
    assert(p.tpl =~= shaped_template(pre, mid, true));
    assert(p.check_regex =~= shaped_expression(pre, mid));
    assert(is_plain(pre));
    assert(is_plain(mid));
    let m0 = "可是"@;
    assert(p.strong_markers =~= seq![m0]);
    assert(mid.subrange(1, 3) =~= m0);
    assert(occurs_at(mid, m0, 1));
    assert(pattern_shaped(p, pre, mid, true));
}

proof fn lemma_pattern_row_35()
    ensures
        well_shaped(pattern_view(35)),
{
    reveal_strlit("{A}，然而{B}");
    reveal_strlit("^.+，然而.+$");
    reveal_strlit("然而");
    reveal_strlit("");
    let pre = Seq::<char>::empty();
    let mid = seq!['，', '然', '而'];
    let p = pattern_view(35);
    assert(p.tpl =~= shaped_template(pre, mid, true));
    assert(p.check_regex =~= shaped_expression(pre, mid));
    assert(is_plain(pre));
    assert(is_plain(mid));
    let m0 = "然而"@;
    assert(p.strong_markers =~= seq![m0]);
    assert(mid.subrange(1, 3) =~= m0);
    assert(occurs_at(mid, m0, 1));
    assert(pattern_shaped(p, pre, mid, true));
}

proof fn lemma_pattern_row_36()
    ensures
        well_shaped(pattern_view(36)),
{
    reveal_strlit("{A}，却{B}");
    reveal_strlit("^.+，却.+$");
    reveal_strlit("却");
    reveal_strlit("");
    let pre = Seq::<char>::empty();
    let mid = seq!['，', '却'];
    let p = pattern_view(36);
    assert(p.tpl =~= shaped_template(pre, mid, true));
    assert(p.check_regex =~= shaped_expression(pre, mid));
    assert(is_plain(pre));
    assert(is_plain(mid));
    let m0 = "却"@;
    assert(p.strong_markers =~= seq![m0]);
    assert(mid.subrange(1, 2) =~= m0);
    assert(occurs_at(mid, m0, 1));
    assert(pattern_shaped(p, pre, mid, true));
}

proof fn lemma_pattern_row_37()
    ensures
        well_shaped(pattern_view(37)),
{
    reveal_strlit("{A}，反而{B}");
    reveal_strlit("^.+，反而.+$");
    reveal_strlit("反而");
    reveal_strlit("");
    let pre = Seq::<char>::empty();
    let mid = seq!['，', '反', '而'];
    let p = pattern_view(37);
    assert(p.tpl =~= shaped_template(pre, mid, true));
    assert(p.check_regex =~= shaped_expression(pre, mid));
    assert(is_plain(pre));
    assert(is_plain(mid));
    let m0 = "反而"@;
    assert(p.strong_markers =~= seq![m0]);
    assert(mid.subrange(1, 3) =~= m0);
    assert(occurs_at(mid, m0, 1));
    assert(pattern_shaped(p, pre, mid, true));
}

proof fn lemma_pattern_row_38()
    ensures
        well_shaped(pattern_view(38)),
{
    reveal_strlit("表面上{A}，其实{B}");
    reveal_strlit("^表面上.+，其实.+$");
    reveal_strlit("表面上");
    reveal_strlit("其实");
    let pre = seq!['表', '面', '上'];
    let mid = seq!['，', '其', '实'];
    let p = pattern_view(38);
    assert(p.tpl =~= shaped_template(pre, mid, true));
    assert(p.check_regex =~= shaped_expression(pre, mid));
    assert(is_plain(pre));
    assert(is_plain(mid));
    let m0 = "表面上"@;
    let m1 = "其实"@;
    assert(p.strong_markers =~= seq![m0, m1]);
    assert(pre.subrange(0, 3) =~= m0);
    assert(occurs_at(pre, m0, 0));
    assert(mid.subrange(1, 3) =~= m1);
    assert(occurs_at(mid, m1, 1));
    assert(pattern_shaped(p, pre, mid, true));
}

proof fn lemma_pattern_row_39()
    ensures
        well_shaped(pattern_view(39)),
{
    reveal_strlit("一方面{A}，另一方面{B}");
    reveal_strlit("^一方面.+，另一方面.+$");
    reveal_strlit("一方面");
    reveal_strlit("另一方面");
    let pre = seq!['一', '方', '面'];
    let mid = seq!['，', '另', '一', '方', '面'];
    let p = pattern_view(39);
    assert(p.tpl =~= shaped_template(pre, mid, true));
    assert(p.check_regex =~= shaped_expression(pre, mid));
    assert(is_plain(pre));
    assert(is_plain(mid));
    let m0 = "一方面"@;
    let m1 = "另一方面"@;
    assert(p.strong_markers =~= seq![m0, m1]);
    assert(pre.subrange(0, 3) =~= m0);
    assert(occurs_at(pre, m0, 0));
    assert(mid.subrange(1, 5) =~= m1);
    assert(occurs_at(mid, m1, 1));
    assert(pattern_shaped(p, pre, mid, true));
}

proof fn lemma_pattern_row_40()
    ensures
        well_shaped(pattern_view(40)),
{
    reveal_strlit("当{A}的时候，{B}");
    reveal_strlit("^当.+的时候，.+$");
    reveal_strlit("当");
    reveal_strlit("");
    let pre = seq!['当'];
    let mid = seq!['的', '时', '候', '，'];
    let p = pattern_view(40);
    assert(p.tpl =~= shaped_template(pre, mid, true));
    assert(p.check_regex =~= shaped_expression(pre, mid));
    assert(is_plain(pre));
    assert(is_plain(mid));
    let m0 = "当"@;
    assert(p.strong_markers =~= seq![m0]);
    assert(pre.subrange(0, 1) =~= m0);
    assert(occurs_at(pre, m0, 0));
    assert(pattern_shaped(p, pre, mid, true));
}

proof fn lemma_pattern_row_41()
    ensures
        well_shaped(pattern_view(41)),
{
    reveal_strlit("在{A}的时候，{B}");
    reveal_strlit("^在.+的时候，.+$");
    reveal_strlit("在");
    reveal_strlit("");
    let pre = seq!['在'];
    let mid = seq!['的', '时', '候', '，'];
    let p = pattern_view(41);
    assert(p.tpl =~= shaped_template(pre, mid, true));
    assert(p.check_regex =~= shaped_expression(pre, mid));
    assert(is_plain(pre));
    assert(is_plain(mid));
    let m0 = "在"@;
    assert(p.strong_markers =~= seq![m0]);
    assert(pre.subrange(0, 1) =~= m0);
    assert(occurs_at(pre, m0, 0));
    assert(pattern_shaped(p, pre, mid, true));
}

proof fn lemma_pattern_row_42()
    ensures
        well_shaped(pattern_view(42)),
{
    reveal_strlit("{A}以后，{B}");
    reveal_strlit("^.+以后，.+$");
    reveal_strlit("以后");
    reveal_strlit("");
    let pre = Seq::<char>::empty();
    let mid = seq!['以', '后', '，'];
    let p = pattern_view(42);
    assert(p.tpl =~= shaped_template(pre, mid, true));
    assert(p.check_regex =~= shaped_expression(pre, mid));
    assert(is_plain(pre));
    assert(is_plain(mid));
    let m0 = "以后"@;
    assert(p.strong_markers =~= seq![m0]);
    assert(mid.subrange(0, 2) =~= m0);
    assert(occurs_at(mid, m0, 0));
    assert(pattern_shaped(p, pre, mid, true));
}

proof fn lemma_pattern_row_43()
    ensures
        well_shaped(pattern_view(43)),
{
    reveal_strlit("{A}之后，{B}");
    reveal_strlit("^.+之后，.+$");
    reveal_strlit("之后");
    reveal_strlit("");
    let pre = Seq::<char>::empty();
    let mid = seq!['之', '后', '，'];
    let p = pattern_view(43);
    assert(p.tpl =~= shaped_template(pre, mid, true));
    assert(p.check_regex =~= shaped_expression(pre, mid));
    assert(is_plain(pre));
    assert(is_plain(mid));
    let m0 = "之后"@;
    assert(p.strong_markers =~= seq![m0]);
    assert(mid.subrange(0, 2) =~= m0);
    assert(occurs_at(mid, m0, 0));
    assert(pattern_shaped(p, pre, mid, true));
}

proof fn lemma_pattern_row_44()
    ensures
        well_shaped(pattern_view(44)),
{
    reveal_strlit("{A}之前，{B}");
    reveal_strlit("^.+之前，.+$");
    reveal_strlit("之前");
    reveal_strlit("");
    let pre = Seq::<char>::empty();
    let mid = seq!['之', '前', '，'];
    let p = pattern_view(44);
    assert(p.tpl =~= shaped_template(pre, mid, true));
    assert(p.check_regex =~= shaped_expression(pre, mid));
    assert(is_plain(pre));
    assert(is_plain(mid));
    let m0 = "之前"@;
    assert(p.strong_markers =~= seq![m0]);
    assert(mid.subrange(0, 2) =~= m0);
    assert(occurs_at(mid, m0, 0));
    assert(pattern_shaped(p, pre, mid, true));
}

proof fn lemma_pattern_row_45()
    ensures
        well_shaped(pattern_view(45)),
{
    reveal_strlit("从{A}开始，{B}");
    reveal_strlit("^从.+开始，.+$");
    reveal_strlit("开始");
    reveal_strlit("");
    let pre = seq!['从'];
    let mid = seq!['开', '始', '，'];
    let p = pattern_view(45);
    assert(p.tpl =~= shaped_template(pre, mid, true));
    assert(p.check_regex =~= shaped_expression(pre, mid));
    assert(is_plain(pre));
    assert(is_plain(mid));
    let m0 = "开始"@;
    assert(p.strong_markers =~= seq![m0]);
    assert(mid.subrange(0, 2) =~= m0);
    assert(occurs_at(mid, m0, 0));
    assert(pattern_shaped(p, pre, mid, true));
}

proof fn lemma_pattern_row_46()
    ensures
        well_shaped(pattern_view(46)),
{
    reveal_strlit("自从{A}以后，{B}");
    reveal_strlit("^自从.+以后，.+$");
    reveal_strlit("自从");
    reveal_strlit("以后");
    let pre = seq!['自', '从'];
    let mid = seq!['以', '后', '，'];
    let p = pattern_view(46);
    assert(p.tpl =~= shaped_template(pre, mid, true));
    assert(p.check_regex =~= shaped_expression(pre, mid));
    assert(is_plain(pre));
    assert(is_plain(mid));
    let m0 = "自从"@;
    let m1 = "以后"@;
    assert(p.strong_markers =~= seq![m0, m1]);
    assert(pre.subrange(0, 2) =~= m0);
    assert(occurs_at(pre, m0, 0));
    assert(mid.subrange(0, 2) =~= m1);
    assert(occurs_at(mid, m1, 0));
    assert(pattern_shaped(p, pre, mid, true));
}

proof fn lemma_pattern_row_47()
    ensures
        well_shaped(pattern_view(47)),
{
    reveal_strlit("随着{A}，{B}");
    reveal_strlit("^随着.+，.+$");
    reveal_strlit("随着");
    reveal_strlit("");
    let pre = seq!['随', '着'];
    let mid = seq!['，'];
    let p = pattern_view(47);
    assert(p.tpl =~= shaped_template(pre, mid, true));
    assert(p.check_regex =~= shaped_expression(pre, mid));
    assert(is_plain(pre));
    assert(is_plain(mid));
    let m0 = "随着"@;
    assert(p.strong_markers =~= seq![m0]);
    assert(pre.subrange(0, 2) =~= m0);
    assert(occurs_at(pre, m0, 0));
    assert(pattern_shaped(p, pre, mid, true));
}

proof fn lemma_pattern_row_48()
    ensures
        well_shaped(pattern_view(48)),
{
    reveal_strlit("每当{A}，{B}");
    reveal_strlit("^每当.+，.+$");
    reveal_strlit("每当");
    reveal_strlit("");
    let pre = seq!['每', '当'];
    let mid = seq!['，'];
    let p = pattern_view(48);
    assert(p.tpl =~= shaped_template(pre, mid, true));
    assert(p.check_regex =~= shaped_expression(pre, mid));
    assert(is_plain(pre));
    assert(is_plain(mid));
    let m0 = "每当"@;
    assert(p.strong_markers =~= seq![m0]);
    assert(pre.subrange(0, 2) =~= m0);
    assert(occurs_at(pre, m0, 0));
    assert(pattern_shaped(p, pre, mid, true));
}

proof fn lemma_pattern_row_49()
    ensures
        well_shaped(pattern_view(49)),
{
    reveal_strlit("为了{B}，{A}");
    reveal_strlit("^为了.+，.+$");
    reveal_strlit("为了");
    reveal_strlit("");
    let pre = seq!['为', '了'];
    let mid = seq!['，'];
    let p = pattern_view(49);
    assert(p.tpl =~= shaped_template(pre, mid, false));
    assert(p.check_regex =~= shaped_expression(pre, mid));
    assert(is_plain(pre));
    assert(is_plain(mid));
    let m0 = "为了"@;
    assert(p.strong_markers =~= seq![m0]);
    assert(pre.subrange(0, 2) =~= m0);
    assert(occurs_at(pre, m0, 0));
    assert(pattern_shaped(p, pre, mid, false));
}

proof fn lemma_pattern_row_50()
    ensures
        well_shaped(pattern_view(50)),
{
    reveal_strlit("{A}，为了{B}");
    reveal_strlit("^.+，为了.+$");
    reveal_strlit("为了");
    reveal_strlit("");
    let pre = Seq::<char>::empty();
    let mid = seq!['，', '为', '了'];
    let p = pattern_view(50);
    assert(p.tpl =~= shaped_template(pre, mid, true));
    assert(p.check_regex =~= shaped_expression(pre, mid));
    assert(is_plain(pre));
    assert(is_plain(mid));
    let m0 = "为了"@;
    assert(p.strong_markers =~= seq![m0]);
    assert(mid.subrange(1, 3) =~= m0);
    assert(occurs_at(mid, m0, 1));
    assert(pattern_shaped(p, pre, mid, true));
}

proof fn lemma_pattern_row_51()
    ensures
        well_shaped(pattern_view(51)),
{
    reveal_strlit("{A}，以便{B}");
    reveal_strlit("^.+，以便.+$");
    reveal_strlit("以便");
    reveal_strlit("");
    let pre = Seq::<char>::empty();
    let mid = seq!['，', '以', '便'];
    let p = pattern_view(51);
    assert(p.tpl =~= shaped_template(pre, mid, true));
    assert(p.check_regex =~= shaped_expression(pre, mid));
    assert(is_plain(pre));
    assert(is_plain(mid));
    let m0 = "以便"@;
    assert(p.strong_markers =~= seq![m0]);
    assert(mid.subrange(1, 3) =~= m0);
    assert(occurs_at(mid, m0, 1));
    assert(pattern_shaped(p, pre, mid, true));
}

proof fn lemma_pattern_row_52()
    ensures
        well_shaped(pattern_view(52)),
{
    reveal_strlit("{A}，好让{B}");
    reveal_strlit("^.+，好让.+$");
    reveal_strlit("好让");
    reveal_strlit("");
    let pre = Seq::<char>::empty();
    let mid = seq!['，', '好', '让'];
    let p = pattern_view(52);
    assert(p.tpl =~= shaped_template(pre, mid, true));
    assert(p.check_regex =~= shaped_expression(pre, mid));
    assert(is_plain(pre));
    assert(is_plain(mid));
    let m0 = "好让"@;
    assert(p.strong_markers =~= seq![m0]);
    assert(mid.subrange(1, 3) =~= m0);
    assert(occurs_at(mid, m0, 1));
    assert(pattern_shaped(p, pre, mid, true));
}

proof fn lemma_pattern_row_53()
    ensures
        well_shaped(pattern_view(53)),
{
    reveal_strlit("{A}，为的是{B}");
    reveal_strlit("^.+，为的是.+$");
    reveal_strlit("为的是");
    reveal_strlit("");
    let pre = Seq::<char>::empty();
    let mid = seq!['，', '为', '的', '是'];
    let p = pattern_view(53);
    assert(p.tpl =~= shaped_template(pre, mid, true));
    assert(p.check_regex =~= shaped_expression(pre, mid));
    assert(is_plain(pre));
    assert(is_plain(mid));
    let m0 = "为的是"@;
    assert(p.strong_markers =~= seq![m0]);
    assert(mid.subrange(1, 4) =~= m0);
    assert(occurs_at(mid, m0, 1));
    assert(pattern_shaped(p, pre, mid, true));
}

proof fn lemma_pattern_row_54()
    ensures
        well_shaped(pattern_view(54)),
{
    reveal_strlit("{A}，免得{B}");
    reveal_strlit("^.+，免得.+$");
    reveal_strlit("免得");
    reveal_strlit("");
    let pre = Seq::<char>::empty();
    let mid = seq!['，', '免', '得'];
    let p = pattern_view(54);
    assert(p.tpl =~= shaped_template(pre, mid, true));
    assert(p.check_regex =~= shaped_expression(pre, mid));
    assert(is_plain(pre));
    assert(is_plain(mid));
    let m0 = "免得"@;
    assert(p.strong_markers =~= seq![m0]);
    assert(mid.subrange(1, 3) =~= m0);
    assert(occurs_at(mid, m0, 1));
    assert(pattern_shaped(p, pre, mid, true));
}

proof fn lemma_pattern_row_55()
    ensures
        well_shaped(pattern_view(55)),
{
    reveal_strlit("{A}，以免{B}");
    reveal_strlit("^.+，以免.+$");
    reveal_strlit("以免");
    reveal_strlit("");
    let pre = Seq::<char>::empty();
    let mid = seq!['，', '以', '免'];
    let p = pattern_view(55);
    assert(p.tpl =~= shaped_template(pre, mid, true));
    assert(p.check_regex =~= shaped_expression(pre, mid));
    assert(is_plain(pre));
    assert(is_plain(mid));
    let m0 = "以免"@;
    assert(p.strong_markers =~= seq![m0]);
    assert(mid.subrange(1, 3) =~= m0);
    assert(occurs_at(mid, m0, 1));
    assert(pattern_shaped(p, pre, mid, true));
}

proof fn lemma_pattern_row_56()
    ensures
        well_shaped(pattern_view(56)),
{
    reveal_strlit("为{B}起见，{A}");
    reveal_strlit("^为.+起见，.+$");
    reveal_strlit("起见");
    reveal_strlit("");
    let pre = seq!['为'];
    let mid = seq!['起', '见', '，'];
    let p = pattern_view(56);
    assert(p.tpl =~= shaped_template(pre, mid, false));
    assert(p.check_regex =~= shaped_expression(pre, mid));
    assert(is_plain(pre));
    assert(is_plain(mid));
    let m0 = "起见"@;
    assert(p.strong_markers =~= seq![m0]);
    assert(mid.subrange(0, 2) =~= m0);
    assert(occurs_at(mid, m0, 0));
    assert(pattern_shaped(p, pre, mid, false));
}

proof fn lemma_pattern_row_57()
    ensures
        well_shaped(pattern_view(57)),
{
    reveal_strlit("不但{A}，而且{B}");
    reveal_strlit("^不但.+，而且.+$");
    reveal_strlit("不但");
    reveal_strlit("而且");
    let pre = seq!['不', '但'];
    let mid = seq!['，', '而', '且'];
    let p = pattern_view(57);
    assert(p.tpl =~= shaped_template(pre, mid, true));
    assert(p.check_regex =~= shaped_expression(pre, mid));
    assert(is_plain(pre));
    assert(is_plain(mid));
    let m0 = "不但"@;
    let m1 = "而且"@;
    assert(p.strong_markers =~= seq![m0, m1]);
    assert(pre.subrange(0, 2) =~= m0);
    assert(occurs_at(pre, m0, 0));
    assert(mid.subrange(1, 3) =~= m1);
    assert(occurs_at(mid, m1, 1));
    assert(pattern_shaped(p, pre, mid, true));
}

proof fn lemma_pattern_row_58()
    ensures
        well_shaped(pattern_view(58)),
{
    reveal_strlit("不仅{A}，还{B}");
    reveal_strlit("^不仅.+，还.+$");
    reveal_strlit("不仅");
    reveal_strlit("");
    let pre = seq!['不', '仅'];
    let mid = seq!['，', '还'];
    let p = pattern_view(58);
    assert(p.tpl =~= shaped_template(pre, mid, true));
    assert(p.check_regex =~= shaped_expression(pre, mid));
    assert(is_plain(pre));
    assert(is_plain(mid));
    let m0 = "不仅"@;
    assert(p.strong_markers =~= seq![m0]);
    assert(pre.subrange(0, 2) =~= m0);
    assert(occurs_at(pre, m0, 0));
    assert(pattern_shaped(p, pre, mid, true));
}

proof fn lemma_pattern_row_59()
    ensures
        well_shaped(pattern_view(59)),
{
    reveal_strlit("{A}，而且{B}");
    reveal_strlit("^.+，而且.+$");
    reveal_strlit("而且");
    reveal_strlit("");
    let pre = Seq::<char>::empty();
    let mid = seq!['，', '而', '且'];
    let p = pattern_view(59);
    assert(p.tpl =~= shaped_template(pre, mid, true));
    assert(p.check_regex =~= shaped_expression(pre, mid));
    assert(is_plain(pre));
    assert(is_plain(mid));
    let m0 = "而且"@;
    assert(p.strong_markers =~= seq![m0]);
    assert(mid.subrange(1, 3) =~= m0);
    assert(occurs_at(mid, m0, 1));
    assert(pattern_shaped(p, pre, mid, true));
}

proof fn lemma_pattern_row_60()
    ensures
        well_shaped(pattern_view(60)),
{
    reveal_strlit("{A}，并且{B}");
    reveal_strlit("^.+，并且.+$");
    reveal_strlit("并且");
    reveal_strlit("");
    let pre = Seq::<char>::empty();
    let mid = seq!['，', '并', '且'];
    let p = pattern_view(60);
    assert(p.tpl =~= shaped_template(pre, mid, true));
    assert(p.check_regex =~= shaped_expression(pre, mid));
    assert(is_plain(pre));
    assert(is_plain(mid));
    let m0 = "并且"@;
    assert(p.strong_markers =~= seq![m0]);
    assert(mid.subrange(1, 3) =~= m0);
    assert(occurs_at(mid, m0, 1));
    assert(pattern_shaped(p, pre, mid, true));
}

proof fn lemma_pattern_row_61()
    ensures
        well_shaped(pattern_view(61)),
{
    reveal_strlit("{A}，同时{B}");
    reveal_strlit("^.+，同时.+$");
    reveal_strlit("同时");
    reveal_strlit("");
    let pre = Seq::<char>::empty();
    let mid = seq!['，', '同', '时'];
    let p = pattern_view(61);
    assert(p.tpl =~= shaped_template(pre, mid, true));
    assert(p.check_regex =~= shaped_expression(pre, mid));
    assert(is_plain(pre));
    assert(is_plain(mid));
    let m0 = "同时"@;
    assert(p.strong_markers =~= seq![m0]);
    assert(mid.subrange(1, 3) =~= m0);
    assert(occurs_at(mid, m0, 1));
    assert(pattern_shaped(p, pre, mid, true));
}

proof fn lemma_pattern_row_62()
    ensures
        well_shaped(pattern_view(62)),
{
    reveal_strlit("{A}，也{B}");
    reveal_strlit("^.+，也.+$");
    reveal_strlit("");
    let pre = Seq::<char>::empty();
    let mid = seq!['，', '也'];
    let p = pattern_view(62);
    assert(p.tpl =~= shaped_template(pre, mid, true));
    assert(p.check_regex =~= shaped_expression(pre, mid));
    assert(is_plain(pre));
    assert(is_plain(mid));
    assert(p.strong_markers =~= Seq::<Seq<char>>::empty());
    assert(pattern_shaped(p, pre, mid, true));
}

proof fn lemma_pattern_row_63()
    ensures
        well_shaped(pattern_view(63)),
{
    reveal_strlit("除了{A}以外，还{B}");
    reveal_strlit("^除了.+以外，还.+$");
    reveal_strlit("除了");
    reveal_strlit("");
    let pre = seq!['除', '了'];
    let mid = seq!['以', '外', '，', '还'];
    let p = pattern_view(63);
    assert(p.tpl =~= shaped_template(pre, mid, true));
    assert(p.check_regex =~= shaped_expression(pre, mid));
    assert(is_plain(pre));
    assert(is_plain(mid));
    let m0 = "除了"@;
    assert(p.strong_markers =~= seq![m0]);
    assert(pre.subrange(0, 2) =~= m0);
    assert(occurs_at(pre, m0, 0));
    assert(pattern_shaped(p, pre, mid, true));
}

proof fn lemma_pattern_row_64()
    ensures
        well_shaped(pattern_view(64)),
{
    reveal_strlit("要么{A}，要么{B}");
    reveal_strlit("^要么.+，要么.+$");
    reveal_strlit("要么");
    reveal_strlit("");
    let pre = seq!['要', '么'];
    let mid = seq!['，', '要', '么'];
    let p = pattern_view(64);
    assert(p.tpl =~= shaped_template(pre, mid, true));
    assert(p.check_regex =~= shaped_expression(pre, mid));
    assert(is_plain(pre));
    assert(is_plain(mid));
    let m0 = "要么"@;
    assert(p.strong_markers =~= seq![m0]);
    assert(pre.subrange(0, 2) =~= m0);
    assert(occurs_at(pre, m0, 0));
    assert(pattern_shaped(p, pre, mid, true));
}

proof fn lemma_pattern_row_65()
    ensures
        well_shaped(pattern_view(65)),
{
    reveal_strlit("或者{A}，或者{B}");
    reveal_strlit("^或者.+，或者.+$");
    reveal_strlit("或者");
    reveal_strlit("");
    let pre = seq!['或', '者'];
    let mid = seq!['，', '或', '者'];
    let p = pattern_view(65);
    assert(p.tpl =~= shaped_template(pre, mid, true));
    assert(p.check_regex =~= shaped_expression(pre, mid));
    assert(is_plain(pre));
    assert(is_plain(mid));
    let m0 = "或者"@;
    assert(p.strong_markers =~= seq![m0]);
    assert(pre.subrange(0, 2) =~= m0);
    assert(occurs_at(pre, m0, 0));
    assert(pattern_shaped(p, pre, mid, true));
}

proof fn lemma_pattern_row_66()
    ensures
        well_shaped(pattern_view(66)),
{
    reveal_strlit("不是{A}，就是{B}");
    reveal_strlit("^不是.+，就是.+$");
    reveal_strlit("不是");
    reveal_strlit("就是");
    let pre = seq!['不', '是'];
    let mid = seq!['，', '就', '是'];
    let p = pattern_view(66);
    assert(p.tpl =~= shaped_template(pre, mid, true));
    assert(p.check_regex =~= shaped_expression(pre, mid));
    assert(is_plain(pre));
    assert(is_plain(mid));
    let m0 = "不是"@;
    let m1 = "就是"@;
    assert(p.strong_markers =~= seq![m0, m1]);
    assert(pre.subrange(0, 2) =~= m0);
    assert(occurs_at(pre, m0, 0));
    assert(mid.subrange(1, 3) =~= m1);
    assert(occurs_at(mid, m1, 1));
    assert(pattern_shaped(p, pre, mid, true));
}

proof fn lemma_pattern_row_67()
    ensures
        well_shaped(pattern_view(67)),
{
    reveal_strlit("{A}，或者{B}");
    reveal_strlit("^.+，或者.+$");
    reveal_strlit("或者");
    reveal_strlit("");
    let pre = Seq::<char>::empty();
    let mid = seq!['，', '或', '者'];
    let p = pattern_view(67);
    assert(p.tpl =~= shaped_template(pre, mid, true));
    assert(p.check_regex =~= shaped_expression(pre, mid));
    assert(is_plain(pre));
    assert(is_plain(mid));
    let m0 = "或者"@;
    assert(p.strong_markers =~= seq![m0]);
    assert(mid.subrange(1, 3) =~= m0);
    assert(occurs_at(mid, m0, 1));
    assert(pattern_shaped(p, pre, mid, true));
}

proof fn lemma_pattern_row_68()
    ensures
        well_shaped(pattern_view(68)),
{
    reveal_strlit("与其{A}，不如{B}");
    reveal_strlit("^与其.+，不如.+$");
    reveal_strlit("与其");
    reveal_strlit("不如");
    let pre = seq!['与', '其'];
    let mid = seq!['，', '不', '如'];
    let p = pattern_view(68);
    assert(p.tpl =~= shaped_template(pre, mid, true));
    assert(p.check_regex =~= shaped_expression(pre, mid));
    assert(is_plain(pre));
    assert(is_plain(mid));
    let m0 = "与其"@;
    let m1 = "不如"@;
    assert(p.strong_markers =~= seq![m0, m1]);
    assert(pre.subrange(0, 2) =~= m0);
    assert(occurs_at(pre, m0, 0));
    assert(mid.subrange(1, 3) =~= m1);
    assert(occurs_at(mid, m1, 1));
    assert(pattern_shaped(p, pre, mid, true));
}

proof fn lemma_pattern_row_69()
    ensures
        well_shaped(pattern_view(69)),
{
    reveal_strlit("宁可{A}，也不{B}");
    reveal_strlit("^宁可.+，也不.+$");
    reveal_strlit("宁可");
    reveal_strlit("");
    let pre = seq!['宁', '可'];
    let mid = seq!['，', '也', '不'];
    let p = pattern_view(69);
    assert(p.tpl =~= shaped_template(pre, mid, true));
    assert(p.check_regex =~= shaped_expression(pre, mid));
    assert(is_plain(pre));
    assert(is_plain(mid));
    let m0 = "宁可"@;
    assert(p.strong_markers =~= seq![m0]);
    assert(pre.subrange(0, 2) =~= m0);
    assert(occurs_at(pre, m0, 0));
    assert(pattern_shaped(p, pre, mid, true));
}

/// Every pattern of the catalog is shaped.
pub proof fn lemma_pattern_well_shaped(i: int)
    requires
        0 <= i < PATTERN_COUNT,
    ensures
        well_shaped(pattern_view(i)),
{
    if i == 0 {
        lemma_pattern_row_0();
    } else if i == 1 {
        lemma_pattern_row_1();
    } else if i == 2 {
        lemma_pattern_row_2();
    } else if i == 3 {
        lemma_pattern_row_3();
    } else if i == 4 {
        lemma_pattern_row_4();
    } else if i == 5 {
        lemma_pattern_row_5();
    } else if i == 6 {
        lemma_pattern_row_6();
    } else if i == 7 {
        lemma_pattern_row_7();
    } else if i == 8 {
        lemma_pattern_row_8();
    } else if i == 9 {
        lemma_pattern_row_9();
    } else if i == 10 {
        lemma_pattern_row_10();
    } else if i == 11 {
        lemma_pattern_row_11();
    } else if i == 12 {
        lemma_pattern_row_12();
    } else if i == 13 {
        lemma_pattern_row_13();
    } else if i == 14 {
        lemma_pattern_row_14();
    } else if i == 15 {
        lemma_pattern_row_15();
    } else if i == 16 {
        lemma_pattern_row_16();
    } else if i == 17 {
        lemma_pattern_row_17();
    } else if i == 18 {
        lemma_pattern_row_18();
    } else if i == 19 {
        lemma_pattern_row_19();
    } else if i == 20 {
        lemma_pattern_row_20();
    } else if i == 21 {
        lemma_pattern_row_21();
    } else if i == 22 {
        lemma_pattern_row_22();
    } else if i == 23 {
        lemma_pattern_row_23();
    } else if i == 24 {
        lemma_pattern_row_24();
    } else if i == 25 {
        lemma_pattern_row_25();
    } else if i == 26 {
        lemma_pattern_row_26();
    } else if i == 27 {
        lemma_pattern_row_27();
    } else if i == 28 {
        lemma_pattern_row_28();
    } else if i == 29 {
        lemma_pattern_row_29();
    } else if i == 30 {
        lemma_pattern_row_30();
    } else if i == 31 {
        lemma_pattern_row_31();
    } else if i == 32 {
        lemma_pattern_row_32();
    } else if i == 33 {
        lemma_pattern_row_33();
    } else if i == 34 {
        lemma_pattern_row_34();
    } else if i == 35 {
        lemma_pattern_row_35();
    } else if i == 36 {
        lemma_pattern_row_36();
    } else if i == 37 {
        lemma_pattern_row_37();
    } else if i == 38 {
        lemma_pattern_row_38();
    } else if i == 39 {
        lemma_pattern_row_39();
    } else if i == 40 {
        lemma_pattern_row_40();
    } else if i == 41 {
        lemma_pattern_row_41();
    } else if i == 42 {
        lemma_pattern_row_42();
    } else if i == 43 {
        lemma_pattern_row_43();
    } else if i == 44 {
        lemma_pattern_row_44();
    } else if i == 45 {
        lemma_pattern_row_45();
    } else if i == 46 {
        lemma_pattern_row_46();
    } else if i == 47 {
        lemma_pattern_row_47();
    } else if i == 48 {
        lemma_pattern_row_48();
    } else if i == 49 {
        lemma_pattern_row_49();
    } else if i == 50 {
        lemma_pattern_row_50();
    } else if i == 51 {
        lemma_pattern_row_51();
    } else if i == 52 {
        lemma_pattern_row_52();
    } else if i == 53 {
        lemma_pattern_row_53();
    } else if i == 54 {
        lemma_pattern_row_54();
    } else if i == 55 {
        lemma_pattern_row_55();
    } else if i == 56 {
        lemma_pattern_row_56();
    } else if i == 57 {
        lemma_pattern_row_57();
    } else if i == 58 {
        lemma_pattern_row_58();
    } else if i == 59 {
        lemma_pattern_row_59();
    } else if i == 60 {
        lemma_pattern_row_60();
    } else if i == 61 {
        lemma_pattern_row_61();
    } else if i == 62 {
        lemma_pattern_row_62();
    } else if i == 63 {
        lemma_pattern_row_63();
    } else if i == 64 {
        lemma_pattern_row_64();
    } else if i == 65 {
        lemma_pattern_row_65();
    } else if i == 66 {
        lemma_pattern_row_66();
    } else if i == 67 {
        lemma_pattern_row_67();
    } else if i == 68 {
        lemma_pattern_row_68();
    } else if i == 69 {
        lemma_pattern_row_69();
    }
}

proof fn lemma_scene_row_0()
    ensures
        scene_is_plain(0),
{
    reveal_strlit("我没睡够");
    reveal_strlit("我还是把笔记整理完了");
    reveal_strlit("第二天上课更轻松了");
}

proof fn lemma_scene_row_1()
    ensures
        scene_is_plain(1),
{
    reveal_strlit("网速不稳");
    reveal_strlit("会议一直断线");
    reveal_strlit("我改用手机热点才顺利讲完");
}

proof fn lemma_scene_row_2()
    ensures
        scene_is_plain(2),
{
    reveal_strlit("下雨了");
    reveal_strlit("我没去远处");
    reveal_strlit("我就在附近的小店慢慢逛");
}

proof fn lemma_scene_row_3()
    ensures
        scene_is_plain(3),
{
    reveal_strlit("样品太湿");
    reveal_strlit("读数不稳定");
    reveal_strlit("我先烘干再重新测了一次");
}

proof fn lemma_scene_row_4()
    ensures
        scene_is_plain(4),
{
    reveal_strlit("我忘带伞");
    reveal_strlit("衣服被淋湿了");
    reveal_strlit("回家后我立刻换了衣服");
}

proof fn lemma_scene_row_5()
    ensures
        scene_is_plain(5),
{
    reveal_strlit("系统更新后卡顿");
    reveal_strlit("我打开应用变慢了");
    reveal_strlit("我清理缓存后顺畅很多");
}

proof fn lemma_scene_row_6()
    ensures
        scene_is_plain(6),
{
    reveal_strlit("我盐放多了");
    reveal_strlit("汤太咸了");
    reveal_strlit("我加了点水才勉强能喝");
}

proof fn lemma_scene_row_7()
    ensures
        scene_is_plain(7),
{
    reveal_strlit("路上堵车");
    reveal_strlit("我到得有点晚");
    reveal_strlit("我下次会早点出门");
}

proof fn lemma_scene_row_8()
    ensures
        scene_is_plain(8),
{
    reveal_strlit("打印机卡纸");
    reveal_strlit("文件没打印出来");
    reveal_strlit("我把纸重新放好再试了一次");
}

proof fn lemma_scene_row_9()
    ensures
        scene_is_plain(9),
{
    reveal_strlit("手机电量太低");
    reveal_strlit("导航一直提醒省电模式");
    reveal_strlit("我找了个地方先充电");
}

proof fn lemma_scene_row_10()
    ensures
        scene_is_plain(10),
{
    reveal_strlit("我不设闹钟");
    reveal_strlit("早上就起不来");
    reveal_strlit("我只好一路小跑赶时间");
}

proof fn lemma_scene_row_11()
    ensures
        scene_is_plain(11),
{
    reveal_strlit("我不备份文件");
    reveal_strlit("电脑一出问题就会丢资料");
    reveal_strlit("我现在每周都备份一次");
}

proof fn lemma_scene_row_12()
    ensures
        scene_is_plain(12),
{
    reveal_strlit("我出门不带伞");
    reveal_strlit("遇到下雨就会很狼狈");
    reveal_strlit("我开始把伞放在包里");
}

proof fn lemma_scene_row_13()
    ensures
        scene_is_plain(13),
{
    reveal_strlit("我不提前练习");
    reveal_strlit("上台就容易紧张");
    reveal_strlit("我后来每天都练十分钟");
}

proof fn lemma_scene_row_14()
    ensures
        scene_is_plain(14),
{
    reveal_strlit("我晚上早点睡");
    reveal_strlit("第二天精神就更好");
    reveal_strlit("我效率也提高了");
}

proof fn lemma_scene_row_15()
    ensures
        scene_is_plain(15),
{
    reveal_strlit("我不保存密码");
    reveal_strlit("每次登录都要重输");
    reveal_strlit("我干脆用密码管理器");
}

proof fn lemma_scene_row_16()
    ensures
        scene_is_plain(16),
{
    reveal_strlit("我不看天气预报");
    reveal_strlit("行程就容易被打乱");
    reveal_strlit("我现在出门前都会看一眼");
}

proof fn lemma_scene_row_17()
    ensures
        scene_is_plain(17),
{
    reveal_strlit("我不列计划");
    reveal_strlit("事情就会越堆越多");
    reveal_strlit("我开始每天写待办清单");
}

proof fn lemma_scene_row_18()
    ensures
        scene_is_plain(18),
{
    reveal_strlit("我下课了");
    reveal_strlit("我去图书馆复习");
    reveal_strlit("学习效率提高了");
}

proof fn lemma_scene_row_19()
    ensures
        scene_is_plain(19),
{
    reveal_strlit("我到家了");
    reveal_strlit("我先洗个澡");
    reveal_strlit("整个人放松多了");
}

proof fn lemma_scene_row_20()
    ensures
        scene_is_plain(20),
{
    reveal_strlit("会议结束了");
    reveal_strlit("我把要点整理成文档");
    reveal_strlit("同事更容易跟进");
}

proof fn lemma_scene_row_21()
    ensures
        scene_is_plain(21),
{
    reveal_strlit("实验做完了");
    reveal_strlit("我马上记录数据");
    reveal_strlit("后面分析更顺利");
}

proof fn lemma_scene_row_22()
    ensures
        scene_is_plain(22),
{
    reveal_strlit("中午到了");
    reveal_strlit("我出去吃点东西");
    reveal_strlit("下午不那么饿了");
}

proof fn lemma_scene_row_23()
    ensures
        scene_is_plain(23),
{
    reveal_strlit("周末开始了");
    reveal_strlit("我把房间收拾了一下");
    reveal_strlit("住起来更舒服了");
}

proof fn lemma_scene_row_24()
    ensures
        scene_is_plain(24),
{
    reveal_strlit("截止日期到了");
    reveal_strlit("我把最后一版提交上去");
    reveal_strlit("我终于松了口气");
}

proof fn lemma_scene_row_25()
    ensures
        scene_is_plain(25),
{
    reveal_strlit("雨停了");
    reveal_strlit("我出去走走");
    reveal_strlit("心情好了一点");
}

proof fn lemma_scene_row_26()
    ensures
        scene_is_plain(26),
{
    reveal_strlit("我以为今天会很顺利");
    reveal_strlit("事情却特别多");
    reveal_strlit("我忙到很晚才结束");
}

proof fn lemma_scene_row_27()
    ensures
        scene_is_plain(27),
{
    reveal_strlit("我以为十分钟就能搞定");
    reveal_strlit("过程却拖了很久");
    reveal_strlit("我后面的安排被迫改了");
}

proof fn lemma_scene_row_28()
    ensures
        scene_is_plain(28),
{
    reveal_strlit("我以为咖啡店会很安静");
    reveal_strlit("里面却很吵");
    reveal_strlit("我只好换个地方");
}

proof fn lemma_scene_row_29()
    ensures
        scene_is_plain(29),
{
    reveal_strlit("我以为修理不会太贵");
    reveal_strlit("费用却超出预算");
    reveal_strlit("我只能先做最必要的部分");
}

proof fn lemma_scene_row_30()
    ensures
        scene_is_plain(30),
{
    reveal_strlit("我以为资料都准备好了");
    reveal_strlit("关键文件却找不到");
    reveal_strlit("我只好重新整理一遍");
}

proof fn lemma_scene_row_31()
    ensures
        scene_is_plain(31),
{
    reveal_strlit("我以为今天不会下雨");
    reveal_strlit("外面却突然变天");
    reveal_strlit("我被淋得有点狼狈");
}

proof fn lemma_scene_row_32()
    ensures
        scene_is_plain(32),
{
    reveal_strlit("我可以自己做饭");
    reveal_strlit("我也可以点外卖");
    reveal_strlit("如果我点外卖，就要多等一会儿");
}

proof fn lemma_scene_row_33()
    ensures
        scene_is_plain(33),
{
    reveal_strlit("我可以走路过去");
    reveal_strlit("我也可以坐公交");
    reveal_strlit("如果我坐公交，就得看发车时间");
}

proof fn lemma_scene_row_34()
    ensures
        scene_is_plain(34),
{
    reveal_strlit("我可以坐地铁");
    reveal_strlit("我也可以打车");
    reveal_strlit("如果我打车，就会多花一些钱");
}

proof fn lemma_scene_row_35()
    ensures
        scene_is_plain(35),
{
    reveal_strlit("我可以现在就开始");
    reveal_strlit("我也可以拖到明天");
    reveal_strlit("如果我拖到明天，就会更赶");
}

proof fn lemma_scene_row_36()
    ensures
        scene_is_plain(36),
{
    reveal_strlit("我昨晚睡得很晚");
    reveal_strlit("今天还要早起");
    reveal_strlit("我整天都很困");
}

proof fn lemma_scene_row_37()
    ensures
        scene_is_plain(37),
{
    reveal_strlit("我这周任务很多");
    reveal_strlit("每天还要开好几场会");
    reveal_strlit("我几乎没有休息时间");
}

proof fn lemma_scene_row_38()
    ensures
        scene_is_plain(38),
{
    reveal_strlit("我把路线提前查好了");
    reveal_strlit("出门前也准备齐东西");
    reveal_strlit("路上省了不少时间");
}

proof fn lemma_scene_row_39()
    ensures
        scene_is_plain(39),
{
    reveal_strlit("我把手机调成静音");
    reveal_strlit("我还关掉了消息提醒");
    reveal_strlit("我更能专心做事");
}

proof fn lemma_scene_row_40()
    ensures
        scene_is_plain(40),
{
    reveal_strlit("我买了不少食材");
    reveal_strlit("还买了很多零食");
    reveal_strlit("这个月开销变大了");
}

proof fn lemma_scene_row_41()
    ensures
        scene_is_plain(41),
{
    reveal_strlit("我提前半小时出门");
    reveal_strlit("赶上早班车");
    reveal_strlit("我没有迟到");
}

proof fn lemma_scene_row_42()
    ensures
        scene_is_plain(42),
{
    reveal_strlit("我先写了提纲");
    reveal_strlit("讲清楚重点");
    reveal_strlit("汇报更有条理");
}

proof fn lemma_scene_row_43()
    ensures
        scene_is_plain(43),
{
    reveal_strlit("我先把样品烘干");
    reveal_strlit("读数更稳定");
    reveal_strlit("数据更可靠");
}

proof fn lemma_scene_row_44()
    ensures
        scene_is_plain(44),
{
    reveal_strlit("我清理了缓存");
    reveal_strlit("系统运行更顺畅");
    reveal_strlit("应用打开更快");
}

proof fn lemma_scene_row_45()
    ensures
        scene_is_plain(45),
{
    reveal_strlit("我提前准备了问题清单");
    reveal_strlit("沟通更高效");
    reveal_strlit("会议时间缩短了");
}

proof fn lemma_scene_row_46()
    ensures
        scene_is_plain(46),
{
    reveal_strlit("以前我复习很随意");
    reveal_strlit("我经常记不住重点");
    reveal_strlit("现在我却更有方法了");
}

proof fn lemma_scene_row_47()
    ensures
        scene_is_plain(47),
{
    reveal_strlit("以前我总是熬夜");
    reveal_strlit("我白天很没精神");
    reveal_strlit("现在我反而睡得更规律");
}

proof fn lemma_scene_row_48()
    ensures
        scene_is_plain(48),
{
    reveal_strlit("刚开始我不太会用这个工具");
    reveal_strlit("我做事很慢");
    reveal_strlit("后来我却越来越熟练");
}

proof fn lemma_scene_row_49()
    ensures
        scene_is_plain(49),
{
    reveal_strlit("我提前准备了");
    reveal_strlit("事情本来应该很顺利");
    reveal_strlit("结果却还是出了差错");
}

proof fn lemma_scene_row_50()
    ensures
        scene_is_plain(50),
{
    reveal_strlit("我出门很早");
    reveal_strlit("我本来应该不会迟到");
    reveal_strlit("路上却偏偏堵得厉害");
}

proof fn lemma_scene_row_51()
    ensures
        scene_is_plain(51),
{
    reveal_strlit("我练习了很多次");
    reveal_strlit("我本来应该很自信");
    reveal_strlit("上台却还是有点紧张");
}

/// Every slot of every scene of the catalog is a plain text that is not
/// empty.
pub proof fn lemma_scene_plain(i: int)
    requires
        0 <= i < SCENE_COUNT,
    ensures
        scene_is_plain(i),
{
    if i == 0 {
        lemma_scene_row_0();
    } else if i == 1 {
        lemma_scene_row_1();
    } else if i == 2 {
        lemma_scene_row_2();
    } else if i == 3 {
        lemma_scene_row_3();
    } else if i == 4 {
        lemma_scene_row_4();
    } else if i == 5 {
        lemma_scene_row_5();
    } else if i == 6 {
        lemma_scene_row_6();
    } else if i == 7 {
        lemma_scene_row_7();
    } else if i == 8 {
        lemma_scene_row_8();
    } else if i == 9 {
        lemma_scene_row_9();
    } else if i == 10 {
        lemma_scene_row_10();
    } else if i == 11 {
        lemma_scene_row_11();
    } else if i == 12 {
        lemma_scene_row_12();
    } else if i == 13 {
        lemma_scene_row_13();
    } else if i == 14 {
        lemma_scene_row_14();
    } else if i == 15 {
        lemma_scene_row_15();
    } else if i == 16 {
        lemma_scene_row_16();
    } else if i == 17 {
        lemma_scene_row_17();
    } else if i == 18 {
        lemma_scene_row_18();
    } else if i == 19 {
        lemma_scene_row_19();
    } else if i == 20 {
        lemma_scene_row_20();
    } else if i == 21 {
        lemma_scene_row_21();
    } else if i == 22 {
        lemma_scene_row_22();
    } else if i == 23 {
        lemma_scene_row_23();
    } else if i == 24 {
        lemma_scene_row_24();
    } else if i == 25 {
        lemma_scene_row_25();
    } else if i == 26 {
        lemma_scene_row_26();
    } else if i == 27 {
        lemma_scene_row_27();
    } else if i == 28 {
        lemma_scene_row_28();
    } else if i == 29 {
        lemma_scene_row_29();
    } else if i == 30 {
        lemma_scene_row_30();
    } else if i == 31 {
        lemma_scene_row_31();
    } else if i == 32 {
        lemma_scene_row_32();
    } else if i == 33 {
        lemma_scene_row_33();
    } else if i == 34 {
        lemma_scene_row_34();
    } else if i == 35 {
        lemma_scene_row_35();
    } else if i == 36 {
        lemma_scene_row_36();
    } else if i == 37 {
        lemma_scene_row_37();
    } else if i == 38 {
        lemma_scene_row_38();
    } else if i == 39 {
        lemma_scene_row_39();
    } else if i == 40 {
        lemma_scene_row_40();
    } else if i == 41 {
        lemma_scene_row_41();
    } else if i == 42 {
        lemma_scene_row_42();
    } else if i == 43 {
        lemma_scene_row_43();
    } else if i == 44 {
        lemma_scene_row_44();
    } else if i == 45 {
        lemma_scene_row_45();
    } else if i == 46 {
        lemma_scene_row_46();
    } else if i == 47 {
        lemma_scene_row_47();
    } else if i == 48 {
        lemma_scene_row_48();
    } else if i == 49 {
        lemma_scene_row_49();
    } else if i == 50 {
        lemma_scene_row_50();
    } else if i == 51 {
        lemma_scene_row_51();
    }
}

/// A text that lacks the first character of `pat` does not hold `pat`.
pub proof fn lemma_not_contained(u: Seq<char>, pat: Seq<char>)
    requires
        pat.len() > 0,
        lacks(u, pat[0]),
    ensures
        !spec_contains(u, pat),
{
    assert forall|i: int| !occurs_at(u, pat, i) by {
        if 0 <= i < u.len() {
            lemma_no_occurrence_inside(u, Seq::empty(), pat, i);
            assert(u + Seq::<char>::empty() =~= u);
        }
    }
}

/// The three slots of the scene in row 25, written one after the other.
pub open spec fn rain_stop_scene_text() -> Seq<char> {
    scene_view(25).p1 + scene_view(25).p2 + scene_view(25).p3
}

/// The text of the scene in row 25 lacks `c`, where each slot does.
proof fn lemma_rain_stop_scene_lacks(c: char)
    requires
        lacks(scene_view(25).p1, c),
        lacks(scene_view(25).p2, c),
        lacks(scene_view(25).p3, c),
    ensures
        lacks(rain_stop_scene_text(), c),
{
    lemma_lacks_concat(scene_view(25).p1, scene_view(25).p2, c);
    lemma_lacks_concat(scene_view(25).p1 + scene_view(25).p2, scene_view(25).p3, c);
}

/// The scene in row 25 holds none of the advanced vocabulary.
pub proof fn lemma_rain_stop_scene_below_level_3()
    ensures
        !any_token_in(rain_stop_scene_text(), strs_of(LEVEL3_PLUS_TOKENS@)),
{
    reveal_strlit("雨停了");
    reveal_strlit("我出去走走");
    reveal_strlit("心情好了一点");
    let text = rain_stop_scene_text();
    let tokens = strs_of(LEVEL3_PLUS_TOKENS@);
    assert forall|k: int| 0 <= k < tokens.len() implies !spec_contains(
        text,
        #[trigger] tokens[k],
    ) by {
        if k == 0 {
            reveal_strlit("预算");
            lemma_rain_stop_scene_lacks('预');
            lemma_not_contained(text, tokens[0]);
        } else if k == 1 {
            reveal_strlit("关键");
            lemma_rain_stop_scene_lacks('关');
            lemma_not_contained(text, tokens[1]);
        } else if k == 2 {
            reveal_strlit("缓存");
            lemma_rain_stop_scene_lacks('缓');
            lemma_not_contained(text, tokens[2]);
        } else if k == 3 {
            reveal_strlit("样品");
            lemma_rain_stop_scene_lacks('样');
            lemma_not_contained(text, tokens[3]);
        } else if k == 4 {
            reveal_strlit("实验");
            lemma_rain_stop_scene_lacks('实');
            lemma_not_contained(text, tokens[4]);
        } else if k == 5 {
            reveal_strlit("汇报");
            lemma_rain_stop_scene_lacks('汇');
            lemma_not_contained(text, tokens[5]);
        } else if k == 6 {
            reveal_strlit("沟通");
            lemma_rain_stop_scene_lacks('沟');
            lemma_not_contained(text, tokens[6]);
        } else if k == 7 {
            reveal_strlit("效率");
            lemma_rain_stop_scene_lacks('效');
            lemma_not_contained(text, tokens[7]);
        } else if k == 8 {
            reveal_strlit("截止");
            lemma_rain_stop_scene_lacks('截');
            lemma_not_contained(text, tokens[8]);
        } else if k == 9 {
            reveal_strlit("省电模式");
            lemma_rain_stop_scene_lacks('省');
            lemma_not_contained(text, tokens[9]);
        } else if k == 10 {
            reveal_strlit("热点");
            lemma_rain_stop_scene_lacks('热');
            lemma_not_contained(text, tokens[10]);
        } else if k == 11 {
            reveal_strlit("发车时间");
            lemma_rain_stop_scene_lacks('发');
            lemma_not_contained(text, tokens[11]);
        } else if k == 12 {
            reveal_strlit("提纲");
            lemma_rain_stop_scene_lacks('提');
            lemma_not_contained(text, tokens[12]);
        } else if k == 13 {
            reveal_strlit("数据");
            lemma_rain_stop_scene_lacks('数');
            lemma_not_contained(text, tokens[13]);
        } else if k == 14 {
            reveal_strlit("分析");
            lemma_rain_stop_scene_lacks('分');
            lemma_not_contained(text, tokens[14]);
        } else if k == 15 {
            reveal_strlit("资料");
            lemma_rain_stop_scene_lacks('资');
            lemma_not_contained(text, tokens[15]);
        } else if k == 16 {
            reveal_strlit("被迫");
            lemma_rain_stop_scene_lacks('被');
            lemma_not_contained(text, tokens[16]);
        } else if k == 17 {
            reveal_strlit("偏偏");
            lemma_rain_stop_scene_lacks('偏');
            lemma_not_contained(text, tokens[17]);
        } else if k == 18 {
            reveal_strlit("狼狈");
            lemma_rain_stop_scene_lacks('狼');
            lemma_not_contained(text, tokens[18]);
        } else if k == 19 {
            reveal_strlit("越来越熟练");
            lemma_rain_stop_scene_lacks('越');
            lemma_not_contained(text, tokens[19]);
        }
    }
}

/// The scene in row 25 holds none of the vocabulary closed to the basic level.
pub proof fn lemma_rain_stop_scene_below_level_2()
    ensures
        !any_token_in(rain_stop_scene_text(), strs_of(LEVEL2_PLUS_TOKENS@)),
{
    reveal_strlit("雨停了");
    reveal_strlit("我出去走走");
    reveal_strlit("心情好了一点");
    let text = rain_stop_scene_text();
    let tokens = strs_of(LEVEL2_PLUS_TOKENS@);
    assert forall|k: int| 0 <= k < tokens.len() implies !spec_contains(
        text,
        #[trigger] tokens[k],
    ) by {
        if k == 0 {
            reveal_strlit("整理");
            lemma_rain_stop_scene_lacks('整');
            lemma_not_contained(text, tokens[0]);
        } else if k == 1 {
            reveal_strlit("路线");
            lemma_rain_stop_scene_lacks('路');
            lemma_not_contained(text, tokens[1]);
        } else if k == 2 {
            reveal_strlit("静音");
            lemma_rain_stop_scene_lacks('静');
            lemma_not_contained(text, tokens[2]);
        } else if k == 3 {
            reveal_strlit("消息提醒");
            lemma_rain_stop_scene_lacks('消');
            lemma_not_contained(text, tokens[3]);
        } else if k == 4 {
            reveal_strlit("待办");
            lemma_rain_stop_scene_lacks('待');
            lemma_not_contained(text, tokens[4]);
        } else if k == 5 {
            reveal_strlit("拖到明天");
            lemma_rain_stop_scene_lacks('拖');
            lemma_not_contained(text, tokens[5]);
        } else if k == 6 {
            reveal_strlit("几乎没有休息时间");
            lemma_rain_stop_scene_lacks('几');
            lemma_not_contained(text, tokens[6]);
        } else if k == 7 {
            reveal_strlit("后面的安排");
            lemma_rain_stop_scene_lacks('后');
            lemma_not_contained(text, tokens[7]);
        } else if k == 8 {
            reveal_strlit("干脆");
            lemma_rain_stop_scene_lacks('干');
            lemma_not_contained(text, tokens[8]);
        } else if k == 9 {
            reveal_strlit("省了不少时间");
            lemma_rain_stop_scene_lacks('省');
            lemma_not_contained(text, tokens[9]);
        } else if k == 10 {
            reveal_strlit("只好");
            lemma_rain_stop_scene_lacks('只');
            lemma_not_contained(text, tokens[10]);
        }
    }
}

} // verus!
