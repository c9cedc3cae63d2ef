//! The catalogs: connective patterns, two-step chains and scenes.
//!
//! Each catalog is a constant table of text rows. A record is read from a row
//! by `pattern_at`, `chain_at` or `scene_at`; the spec functions
//! `pattern_view`, `chain_view` and `scene_view` say what the record holds.

use vstd::prelude::*;
use crate::text::{same_text, strs_of};

verus! {

/// The number of patterns.
pub const PATTERN_COUNT: usize = 70;

/// The number of chains.
pub const CHAIN_COUNT: usize = 9;

/// The number of scenes.
pub const SCENE_COUNT: usize = 52;

/// The patterns, grouped by relation. A row holds, in this order: relation,
/// id, kind (`PAIR` or `SINGLE`), template with the placeholders `{A}` and
/// `{B}`, marker label, structural expression, two places for strong markers,
/// one for a weak marker, two for tokens that the seed may not contain. A
/// place that is not used holds the empty text.
pub const PATTERNS: [[&'static str; 11]; 70] = [
    [
        "CAUSE", "zh_pat__cause__yinwei_suoyi__pair__l1", "PAIR",
        "因为{A}，所以{B}", "因为…所以…", "^因为.+，所以.+$",
        "因为", "所以", "", "因为", "所以",
    ],
    [
        "CAUSE", "zh_pat__cause__youyu_yinci__pair__l2", "PAIR",
        "由于{A}，因此{B}", "由于…因此…", "^由于.+，因此.+$",
        "由于", "因此", "", "由于", "因此",
    ],
    [
        "CAUSE", "zh_pat__cause__jiran_jiu__pair__l2", "PAIR",
        "既然{A}，就{B}", "既然…就…", "^既然.+，就.+$",
        "既然", "", "就", "既然", "",
    ],
    [
        "CAUSE", "zh_pat__cause__yinwei_only__single__l1", "SINGLE",
        "因为{A}，{B}", "因为…", "^因为.+，.+$",
        "因为", "", "", "因为", "",
    ],
    [
        "CAUSE", "zh_pat__cause__youyu_only__single__l2", "SINGLE",
        "由于{A}，{B}", "由于…", "^由于.+，.+$",
        "由于", "", "", "由于", "",
    ],
    [
        "CAUSE", "zh_pat__cause__zhengyinwei__single__l3", "SINGLE",
        "正因为{A}，{B}", "正因为…", "^正因为.+，.+$",
        "正因为", "", "", "正因为", "",
    ],
    [
        "CAUSE", "zh_pat__cause__b_shiyinwei_a__single__l2", "SINGLE",
        "{B}，是因为{A}", "…是因为…", "^.+，是因为.+$",
        "是因为", "", "", "是因为", "",
    ],
    [
        "CAUSE", "zh_pat__cause__zhisuoyi_shiyinwei__pair__l2", "PAIR",
        "之所以{B}，是因为{A}", "之所以…是因为…", "^之所以.+，是因为.+$",
        "之所以", "是因为", "", "之所以", "是因为",
    ],
    [
        "CAUSE", "zh_pat__cause__yuanyin_zaiyu__single__l3", "SINGLE",
        "{B}的原因在于{A}", "…的原因在于…", "^.+的原因在于.+$",
        "原因在于", "", "", "原因在于", "",
    ],
    [
        "CAUSE", "zh_pat__cause__daozhi__single__l2", "SINGLE",
        "{A}，导致{B}", "导致…", "^.+，导致.+$",
        "导致", "", "", "导致", "",
    ],
    [
        "CAUSE", "zh_pat__cause__shide__single__l2", "SINGLE",
        "{A}，使得{B}", "使得…", "^.+，使得.+$",
        "使得", "", "", "使得", "",
    ],
    [
        "RESULT", "zh_pat__result__suoyi__single__l1", "SINGLE",
        "{A}，所以{B}", "所以…", "^.+，所以.+$",
        "所以", "", "", "所以", "",
    ],
    [
        "RESULT", "zh_pat__result__yinci__single__l1", "SINGLE",
        "{A}，因此{B}", "因此…", "^.+，因此.+$",
        "因此", "", "", "因此", "",
    ],
    [
        "RESULT", "zh_pat__result__yiner__single__l2", "SINGLE",
        "{A}，因而{B}", "因而…", "^.+，因而.+$",
        "因而", "", "", "因而", "",
    ],
    [
        "RESULT", "zh_pat__result__yushi__single__l1", "SINGLE",
        "{A}，于是{B}", "于是…", "^.+，于是.+$",
        "于是", "", "", "于是", "",
    ],
    [
        "RESULT", "zh_pat__result__jieguo__single__l1", "SINGLE",
        "{A}，结果{B}", "结果…", "^.+，结果.+$",
        "结果", "", "", "结果", "",
    ],
    [
        "RESULT", "zh_pat__result__jieguo_shi__single__l2", "SINGLE",
        "{A}，结果是{B}", "结果是…", "^.+，结果是.+$",
        "结果是", "", "", "结果是", "",
    ],
    [
        "RESULT", "zh_pat__result__conger__single__l3", "SINGLE",
        "{A}，从而{B}", "从而…", "^.+，从而.+$",
        "从而", "", "", "从而", "",
    ],
    [
        "RESULT", "zh_pat__result__jin_er__single__l3", "SINGLE",
        "{A}，进而{B}", "进而…", "^.+，进而.+$",
        "进而", "", "", "进而", "",
    ],
    [
        "RESULT", "zh_pat__result__yizhiyu__single__l3", "SINGLE",
        "{A}，以至于{B}", "以至于…", "^.+，以至于.+$",
        "以至于", "", "", "以至于", "",
    ],
    [
        "CONDITION", "zh_pat__cond__ruguo_jiu__pair__l1", "PAIR",
        "如果{A}，就{B}", "如果…就…", "^如果.+，就.+$",
        "如果", "", "就", "如果", "",
    ],
    [
        "CONDITION", "zh_pat__cond__yaoshi_jiu__pair__l1", "PAIR",
        "要是{A}，就{B}", "要是…就…", "^要是.+，就.+$",
        "要是", "", "就", "要是", "",
    ],
    [
        "CONDITION", "zh_pat__cond__jiaru_jiu__pair__l2", "PAIR",
        "假如{A}，就{B}", "假如…就…", "^假如.+，就.+$",
        "假如", "", "就", "假如", "",
    ],
    [
        "CONDITION", "zh_pat__cond__zhiyao_jiu__pair__l1", "PAIR",
        "只要{A}，就{B}", "只要…就…", "^只要.+，就.+$",
        "只要", "", "就", "只要", "",
    ],
    [
        "CONDITION", "zh_pat__cond__zhiyou_cai__pair__l2", "PAIR",
        "只有{A}，才{B}", "只有…才…", "^只有.+，才.+$",
        "只有", "", "才", "只有", "",
    ],
    [
        "CONDITION", "zh_pat__cond__chufei_fouze__pair__l2", "PAIR",
        "除非{A}，否则{B}", "除非…否则…", "^除非.+，否则.+$",
        "除非", "否则", "", "除非", "否则",
    ],
    [
        "CONDITION", "zh_pat__cond__a_dehua_b__single__l2", "SINGLE",
        "{A}的话，{B}", "…的话…", "^.+的话，.+$",
        "的话", "", "", "的话", "",
    ],
    [
        "CONDITION", "zh_pat__cond__fouze__single__l2", "SINGLE",
        "{A}，否则{B}", "否则…", "^.+，否则.+$",
        "否则", "", "", "否则", "",
    ],
    [
        "CONDITION", "zh_pat__cond__qingkuangxia__single__l3", "SINGLE",
        "在{A}的情况下，{B}", "在…的情况下…", "^在.+的情况下，.+$",
        "情况下", "", "", "情况下", "",
    ],
    [
        "CONTRAST", "zh_pat__contrast__suiran_danshi__pair__l1", "PAIR",
        "虽然{A}，但是{B}", "虽然…但是…", "^虽然.+，但是.+$",
        "虽然", "但是", "", "虽然", "但是",
    ],
    [
        "CONTRAST", "zh_pat__contrast__suiran_dan__pair__l2", "PAIR",
        "虽然{A}，但{B}", "虽然…但…", "^虽然.+，但.+$",
        "虽然", "", "但", "虽然", "",
    ],
    [
        "CONTRAST", "zh_pat__contrast__jinguan_dan__pair__l2", "PAIR",
        "尽管{A}，但{B}", "尽管…但…", "^尽管.+，但.+$",
        "尽管", "", "但", "尽管", "",
    ],
    [
        "CONTRAST", "zh_pat__contrast__jinguan_rengran__pair__l3", "PAIR",
        "尽管{A}，仍然{B}", "尽管…仍然…", "^尽管.+，仍然.+$",
        "尽管", "仍然", "", "尽管", "仍然",
    ],
    [
        "CONTRAST", "zh_pat__contrast__a_buguo_b__single__l1", "SINGLE",
        "{A}，不过{B}", "不过…", "^.+，不过.+$",
        "不过", "", "", "不过", "",
    ],
    [
        "CONTRAST", "zh_pat__contrast__a_keshi_b__single__l1", "SINGLE",
        "{A}，可是{B}", "可是…", "^.+，可是.+$",
        "可是", "", "", "可是", "",
    ],
    [
        "CONTRAST", "zh_pat__contrast__a_ran'er_b__single__l2", "SINGLE",
        "{A}，然而{B}", "然而…", "^.+，然而.+$",
        "然而", "", "", "然而", "",
    ],
    [
        "CONTRAST", "zh_pat__contrast__a_que_b__single__l2", "SINGLE",
        "{A}，却{B}", "却…", "^.+，却.+$",
        "却", "", "", "却", "",
    ],
    [
        "CONTRAST", "zh_pat__contrast__a_faner_b__single__l3", "SINGLE",
        "{A}，反而{B}", "反而…", "^.+，反而.+$",
        "反而", "", "", "反而", "",
    ],
    [
        "CONTRAST", "zh_pat__contrast__biaomianshang_qishi__pair__l3", "PAIR",
        "表面上{A}，其实{B}", "表面上…其实…", "^表面上.+，其实.+$",
        "表面上", "其实", "", "表面上", "其实",
    ],
    [
        "CONTRAST", "zh_pat__contrast__yifangmian_lingyifangmian__pair__l3", "PAIR",
        "一方面{A}，另一方面{B}", "一方面…另一方面…", "^一方面.+，另一方面.+$",
        "一方面", "另一方面", "", "一方面", "另一方面",
    ],
    [
        "TIME", "zh_pat__time__dang_shi__single__l1", "SINGLE",
        "当{A}的时候，{B}", "当…的时候…", "^当.+的时候，.+$",
        "当", "", "", "当", "",
    ],
    [
        "TIME", "zh_pat__time__zai_shi__single__l2", "SINGLE",
        "在{A}的时候，{B}", "在…的时候…", "^在.+的时候，.+$",
        "在", "", "", "", "",
    ],
    [
        "TIME", "zh_pat__time__a_yihou_b__single__l1", "SINGLE",
        "{A}以后，{B}", "…以后…", "^.+以后，.+$",
        "以后", "", "", "以后", "",
    ],
    [
        "TIME", "zh_pat__time__a_zhihou_b__single__l1", "SINGLE",
        "{A}之后，{B}", "…之后…", "^.+之后，.+$",
        "之后", "", "", "之后", "",
    ],
    [
        "TIME", "zh_pat__time__a_zhiqian_b__single__l1", "SINGLE",
        "{A}之前，{B}", "…之前…", "^.+之前，.+$",
        "之前", "", "", "之前", "",
    ],
    [
        "TIME", "zh_pat__time__cong_kaishi__single__l2", "SINGLE",
        "从{A}开始，{B}", "从…开始…", "^从.+开始，.+$",
        "开始", "", "", "开始", "",
    ],
    [
        "TIME", "zh_pat__time__zicong_yihou__single__l3", "SINGLE",
        "自从{A}以后，{B}", "自从…以后…", "^自从.+以后，.+$",
        "自从", "以后", "", "自从", "以后",
    ],
    [
        "TIME", "zh_pat__time__suizhe__single__l3", "SINGLE",
        "随着{A}，{B}", "随着…", "^随着.+，.+$",
        "随着", "", "", "随着", "",
    ],
    [
        "TIME", "zh_pat__time__meidang__single__l3", "SINGLE",
        "每当{A}，{B}", "每当…", "^每当.+，.+$",
        "每当", "", "", "每当", "",
    ],
    [
        "PURPOSE", "zh_pat__purpose__weile__single__l1", "SINGLE",
        "为了{B}，{A}", "为了…", "^为了.+，.+$",
        "为了", "", "", "为了", "",
    ],
    [
        "PURPOSE", "zh_pat__purpose__a_weile_b__single__l1", "SINGLE",
        "{A}，为了{B}", "…为了…", "^.+，为了.+$",
        "为了", "", "", "为了", "",
    ],
    [
        "PURPOSE", "zh_pat__purpose__yibian__single__l2", "SINGLE",
        "{A}，以便{B}", "以便…", "^.+，以便.+$",
        "以便", "", "", "以便", "",
    ],
    [
        "PURPOSE", "zh_pat__purpose__haorang__single__l2", "SINGLE",
        "{A}，好让{B}", "好让…", "^.+，好让.+$",
        "好让", "", "", "好让", "",
    ],
    [
        "PURPOSE", "zh_pat__purpose__weideshi__single__l2", "SINGLE",
        "{A}，为的是{B}", "为的是…", "^.+，为的是.+$",
        "为的是", "", "", "为的是", "",
    ],
    [
        "PURPOSE", "zh_pat__purpose__mian_de__single__l3", "SINGLE",
        "{A}，免得{B}", "免得…", "^.+，免得.+$",
        "免得", "", "", "免得", "",
    ],
    [
        "PURPOSE", "zh_pat__purpose__yimian__single__l3", "SINGLE",
        "{A}，以免{B}", "以免…", "^.+，以免.+$",
        "以免", "", "", "以免", "",
    ],
    [
        "PURPOSE", "zh_pat__purpose__weib_qijian__single__l3", "SINGLE",
        "为{B}起见，{A}", "为…起见…", "^为.+起见，.+$",
        "起见", "", "", "起见", "",
    ],
    [
        "ADDITION", "zh_pat__add__budan_erqie__pair__l2", "PAIR",
        "不但{A}，而且{B}", "不但…而且…", "^不但.+，而且.+$",
        "不但", "而且", "", "不但", "而且",
    ],
    [
        "ADDITION", "zh_pat__add__buji_hai__pair__l1", "PAIR",
        "不仅{A}，还{B}", "不仅…还…", "^不仅.+，还.+$",
        "不仅", "", "还", "不仅", "",
    ],
    [
        "ADDITION", "zh_pat__add__a_erqie_b__single__l1", "SINGLE",
        "{A}，而且{B}", "而且…", "^.+，而且.+$",
        "而且", "", "", "而且", "",
    ],
    [
        "ADDITION", "zh_pat__add__a_bingqie_b__single__l2", "SINGLE",
        "{A}，并且{B}", "并且…", "^.+，并且.+$",
        "并且", "", "", "并且", "",
    ],
    [
        "ADDITION", "zh_pat__add__a_tongshi_b__single__l2", "SINGLE",
        "{A}，同时{B}", "同时…", "^.+，同时.+$",
        "同时", "", "", "同时", "",
    ],
    [
        "ADDITION", "zh_pat__add__a_yebing_b__single__l1", "SINGLE",
        "{A}，也{B}", "也…", "^.+，也.+$",
        "", "", "也", "", "",
    ],
    [
        "ADDITION", "zh_pat__add__chule_hai__pair__l3", "PAIR",
        "除了{A}以外，还{B}", "除了…以外，还…", "^除了.+以外，还.+$",
        "除了", "", "还", "除了", "",
    ],
    [
        "CHOICE", "zh_pat__choice__yaome_yaome__pair__l1", "PAIR",
        "要么{A}，要么{B}", "要么…要么…", "^要么.+，要么.+$",
        "要么", "", "", "要么", "",
    ],
    [
        "CHOICE", "zh_pat__choice__huozhe_huozhe__pair__l2", "PAIR",
        "或者{A}，或者{B}", "或者…或者…", "^或者.+，或者.+$",
        "或者", "", "", "或者", "",
    ],
    [
        "CHOICE", "zh_pat__choice__bushi_jiushi__pair__l2", "PAIR",
        "不是{A}，就是{B}", "不是…就是…", "^不是.+，就是.+$",
        "不是", "就是", "", "不是", "就是",
    ],
    [
        "CHOICE", "zh_pat__choice__a_huozhe_b__single__l1", "SINGLE",
        "{A}，或者{B}", "或者…", "^.+，或者.+$",
        "或者", "", "", "或者", "",
    ],
    [
        "CHOICE", "zh_pat__choice__yuqi_buru__pair__l3", "PAIR",
        "与其{A}，不如{B}", "与其…不如…", "^与其.+，不如.+$",
        "与其", "不如", "", "与其", "不如",
    ],
    [
        "CHOICE", "zh_pat__choice__ningke_yebu__pair__l3", "PAIR",
        "宁可{A}，也不{B}", "宁可…也不…", "^宁可.+，也不.+$",
        "宁可", "", "也不", "宁可", "",
    ],
];

/// The level of each pattern, from 1 (basic) to 3 (advanced), in the order of
/// `PATTERNS`.
pub const PATTERN_LEVELS: [u8; 70] = [
    1, 2, 2, 1, 2, 3, 2, 2, 3, 2, 2,
    1, 1, 2, 1, 1, 2, 3, 3, 3,
    1, 1, 2, 1, 2, 2, 2, 2, 3,
    1, 2, 2, 3, 1, 1, 2, 2, 3, 3, 3,
    1, 2, 1, 1, 1, 2, 3, 3, 3,
    1, 1, 2, 2, 2, 3, 3, 3,
    2, 1, 1, 2, 2, 1, 3,
    1, 2, 2, 1, 3, 3,
];

/// The chains. A row holds: id, relation of the first step, relation of the
/// second step, scene schema.
pub const CHAINS: [[&'static str; 4]; 9] = [
    ["zh_chain__cause_to_result__v1", "CAUSE", "RESULT", "reason_outcome_followup"],
    ["zh_chain__condition_to_result__v1", "CONDITION", "RESULT", "condition_outcome_followup"],
    ["zh_chain__time_to_result__v1", "TIME", "RESULT", "time_event_outcome"],
    ["zh_chain__contrast_to_result__v1", "CONTRAST", "RESULT", "expectation_actual_consequence"],
    ["zh_chain__choice_to_condition__v1", "CHOICE", "CONDITION", "optionA_optionB_then_rule"],
    ["zh_chain__addition_to_result__v1", "ADDITION", "RESULT", "fact1_fact2_inference"],
    ["zh_chain__purpose_to_result__v1", "PURPOSE", "RESULT", "action_goal_effect"],
    ["zh_chain__time_to_contrast__v1", "TIME", "CONTRAST", "time_then_now_contrast"],
    ["zh_chain__condition_to_contrast__v1", "CONDITION", "CONTRAST", "condition_expected_surprise"],
];

/// The scenes. A row holds: id, schema, and the three narrative slots.
pub const SCENES: [[&'static str; 5]; 52] = [
    ["zh_scene__study_sleep__v1", "reason_outcome_followup", "我没睡够", "我还是把笔记整理完了", "第二天上课更轻松了"],
    ["zh_scene__work_wifi__v1", "reason_outcome_followup", "网速不稳", "会议一直断线", "我改用手机热点才顺利讲完"],
    ["zh_scene__travel_rain__v1", "reason_outcome_followup", "下雨了", "我没去远处", "我就在附近的小店慢慢逛"],
    ["zh_scene__lab_sample__v1", "reason_outcome_followup", "样品太湿", "读数不稳定", "我先烘干再重新测了一次"],
    ["zh_scene__daily_no_umbrella__v1", "reason_outcome_followup", "我忘带伞", "衣服被淋湿了", "回家后我立刻换了衣服"],
    ["zh_scene__tech_update_lag__v1", "reason_outcome_followup", "系统更新后卡顿", "我打开应用变慢了", "我清理缓存后顺畅很多"],
    ["zh_scene__kitchen_salt__v1", "reason_outcome_followup", "我盐放多了", "汤太咸了", "我加了点水才勉强能喝"],
    ["zh_scene__bus_traffic__v1", "reason_outcome_followup", "路上堵车", "我到得有点晚", "我下次会早点出门"],
    ["zh_scene__printer_paper__v1", "reason_outcome_followup", "打印机卡纸", "文件没打印出来", "我把纸重新放好再试了一次"],
    ["zh_scene__phone_low_battery__v1", "reason_outcome_followup", "手机电量太低", "导航一直提醒省电模式", "我找了个地方先充电"],
    ["zh_scene__alarm__v1", "condition_outcome_followup", "我不设闹钟", "早上就起不来", "我只好一路小跑赶时间"],
    ["zh_scene__backup__v1", "condition_outcome_followup", "我不备份文件", "电脑一出问题就会丢资料", "我现在每周都备份一次"],
    ["zh_scene__umbrella__v1", "condition_outcome_followup", "我出门不带伞", "遇到下雨就会很狼狈", "我开始把伞放在包里"],
    ["zh_scene__practice__v1", "condition_outcome_followup", "我不提前练习", "上台就容易紧张", "我后来每天都练十分钟"],
    ["zh_scene__sleep_early__v1", "condition_outcome_followup", "我晚上早点睡", "第二天精神就更好", "我效率也提高了"],
    ["zh_scene__save_password__v1", "condition_outcome_followup", "我不保存密码", "每次登录都要重输", "我干脆用密码管理器"],
    ["zh_scene__check_weather__v1", "condition_outcome_followup", "我不看天气预报", "行程就容易被打乱", "我现在出门前都会看一眼"],
    ["zh_scene__write_plan__v1", "condition_outcome_followup", "我不列计划", "事情就会越堆越多", "我开始每天写待办清单"],
    ["zh_scene__after_class__v1", "time_event_outcome", "我下课了", "我去图书馆复习", "学习效率提高了"],
    ["zh_scene__arrive_home__v1", "time_event_outcome", "我到家了", "我先洗个澡", "整个人放松多了"],
    ["zh_scene__finish_meeting__v1", "time_event_outcome", "会议结束了", "我把要点整理成文档", "同事更容易跟进"],
    ["zh_scene__finish_experiment__v1", "time_event_outcome", "实验做完了", "我马上记录数据", "后面分析更顺利"],
    ["zh_scene__lunch_time__v1", "time_event_outcome", "中午到了", "我出去吃点东西", "下午不那么饿了"],
    ["zh_scene__weekend_start__v1", "time_event_outcome", "周末开始了", "我把房间收拾了一下", "住起来更舒服了"],
    ["zh_scene__project_deadline__v1", "time_event_outcome", "截止日期到了", "我把最后一版提交上去", "我终于松了口气"],
    ["zh_scene__rain_stop__v1", "time_event_outcome", "雨停了", "我出去走走", "心情好了一点"],
    ["zh_scene__expect_easy_but_hard__v1", "expectation_actual_consequence", "我以为今天会很顺利", "事情却特别多", "我忙到很晚才结束"],
    ["zh_scene__expect_fast_but_slow__v1", "expectation_actual_consequence", "我以为十分钟就能搞定", "过程却拖了很久", "我后面的安排被迫改了"],
    ["zh_scene__expect_quiet_but_noisy__v1", "expectation_actual_consequence", "我以为咖啡店会很安静", "里面却很吵", "我只好换个地方"],
    ["zh_scene__expect_cheaper_but_expensive__v1", "expectation_actual_consequence", "我以为修理不会太贵", "费用却超出预算", "我只能先做最必要的部分"],
    ["zh_scene__expect_ready_but_missing__v1", "expectation_actual_consequence", "我以为资料都准备好了", "关键文件却找不到", "我只好重新整理一遍"],
    ["zh_scene__expect_good_weather_but_rain__v1", "expectation_actual_consequence", "我以为今天不会下雨", "外面却突然变天", "我被淋得有点狼狈"],
    ["zh_scene__option_cook_or_takeout__v1", "optionA_optionB_then_rule", "我可以自己做饭", "我也可以点外卖", "如果我点外卖，就要多等一会儿"],
    ["zh_scene__option_walk_or_bus__v1", "optionA_optionB_then_rule", "我可以走路过去", "我也可以坐公交", "如果我坐公交，就得看发车时间"],
    ["zh_scene__option_train_or_taxi__v1", "optionA_optionB_then_rule", "我可以坐地铁", "我也可以打车", "如果我打车，就会多花一些钱"],
    ["zh_scene__option_now_or_later__v1", "optionA_optionB_then_rule", "我可以现在就开始", "我也可以拖到明天", "如果我拖到明天，就会更赶"],
    ["zh_scene__two_facts_tired__v1", "fact1_fact2_inference", "我昨晚睡得很晚", "今天还要早起", "我整天都很困"],
    ["zh_scene__two_facts_busy__v1", "fact1_fact2_inference", "我这周任务很多", "每天还要开好几场会", "我几乎没有休息时间"],
    ["zh_scene__two_facts_save_time__v1", "fact1_fact2_inference", "我把路线提前查好了", "出门前也准备齐东西", "路上省了不少时间"],
    ["zh_scene__two_facts_more_focus__v1", "fact1_fact2_inference", "我把手机调成静音", "我还关掉了消息提醒", "我更能专心做事"],
    ["zh_scene__two_facts_cost__v1", "fact1_fact2_inference", "我买了不少食材", "还买了很多零食", "这个月开销变大了"],
    ["zh_scene__leave_early__v1", "action_goal_effect", "我提前半小时出门", "赶上早班车", "我没有迟到"],
    ["zh_scene__write_outline__v1", "action_goal_effect", "我先写了提纲", "讲清楚重点", "汇报更有条理"],
    ["zh_scene__dry_sample__v1", "action_goal_effect", "我先把样品烘干", "读数更稳定", "数据更可靠"],
    ["zh_scene__clear_cache__v1", "action_goal_effect", "我清理了缓存", "系统运行更顺畅", "应用打开更快"],
    ["zh_scene__prepare_questions__v1", "action_goal_effect", "我提前准备了问题清单", "沟通更高效", "会议时间缩短了"],
    ["zh_scene__then_now_study__v1", "time_then_now_contrast", "以前我复习很随意", "我经常记不住重点", "现在我却更有方法了"],
    ["zh_scene__then_now_sleep__v1", "time_then_now_contrast", "以前我总是熬夜", "我白天很没精神", "现在我反而睡得更规律"],
    ["zh_scene__then_now_workflow__v1", "time_then_now_contrast", "刚开始我不太会用这个工具", "我做事很慢", "后来我却越来越熟练"],
    ["zh_scene__prepared_but_mistake__v1", "condition_expected_surprise", "我提前准备了", "事情本来应该很顺利", "结果却还是出了差错"],
    ["zh_scene__leave_early_but_late__v1", "condition_expected_surprise", "我出门很早", "我本来应该不会迟到", "路上却偏偏堵得厉害"],
    ["zh_scene__practice_but_nervous__v1", "condition_expected_surprise", "我练习了很多次", "我本来应该很自信", "上台却还是有点紧张"],
];

/// Vocabulary that only the advanced level may meet in a scene.
pub const LEVEL3_PLUS_TOKENS: [&'static str; 20] = [
    "预算", "关键", "缓存", "样品", "实验", "汇报",
    "沟通", "效率", "截止", "省电模式", "热点", "发车时间",
    "提纲", "数据", "分析", "资料", "被迫", "偏偏",
    "狼狈", "越来越熟练",
];

/// Vocabulary that the basic level may not meet in a scene.
pub const LEVEL2_PLUS_TOKENS: [&'static str; 11] = [
    "整理", "路线", "静音", "消息提醒", "待办", "拖到明天",
    "几乎没有休息时间", "后面的安排", "干脆", "省了不少时间", "只好",
];

/// What a pattern holds.
pub struct PatternView {
    pub relation: Seq<char>,
    pub id: Seq<char>,
    pub level: u8,
    pub kind: Seq<char>,
    pub tpl: Seq<char>,
    pub markers_zh: Seq<char>,
    pub strong_markers: Seq<Seq<char>>,
    pub weak_markers: Seq<Seq<char>>,
    pub seed_banned: Seq<Seq<char>>,
    pub check_regex: Seq<char>,
}

/// What a chain holds.
pub struct ChainView {
    pub id: Seq<char>,
    pub step1: Seq<char>,
    pub step2: Seq<char>,
    pub scene_schema: Seq<char>,
}

/// What a scene holds.
pub struct SceneView {
    pub id: Seq<char>,
    pub schema: Seq<char>,
    pub p1: Seq<char>,
    pub p2: Seq<char>,
    pub p3: Seq<char>,
}

/// The list made of `t` alone, or the empty list where `t` is the empty text.
pub open spec fn present(t: Seq<char>) -> Seq<Seq<char>> {
    if t.len() > 0 {
        seq![t]
    } else {
        Seq::empty()
    }
}

/// The pattern in row `i` of `PATTERNS`.
pub open spec fn pattern_view(i: int) -> PatternView {
    let row = PATTERNS[i];
    PatternView {
        relation: row[0]@,
        id: row[1]@,
        level: PATTERN_LEVELS[i],
        kind: row[2]@,
        tpl: row[3]@,
        markers_zh: row[4]@,
        strong_markers: present(row[6]@) + present(row[7]@),
        weak_markers: present(row[8]@),
        seed_banned: present(row[9]@) + present(row[10]@),
        check_regex: row[5]@,
    }
}

/// The chain in row `i` of `CHAINS`.
pub open spec fn chain_view(i: int) -> ChainView {
    let row = CHAINS[i];
    ChainView { id: row[0]@, step1: row[1]@, step2: row[2]@, scene_schema: row[3]@ }
}

/// The scene in row `i` of `SCENES`.
pub open spec fn scene_view(i: int) -> SceneView {
    let row = SCENES[i];
    SceneView { id: row[0]@, schema: row[1]@, p1: row[2]@, p2: row[3]@, p3: row[4]@ }
}

/// A connective pattern.
pub struct PatternDef {
    pub relation: &'static str,
    pub id: &'static str,
    pub level: u8,
    pub kind: &'static str,
    pub tpl: &'static str,
    pub markers_zh: &'static str,
    pub strong_markers: Vec<&'static str>,
    pub weak_markers: Vec<&'static str>,
    pub seed_banned: Vec<&'static str>,
    pub check_regex: &'static str,
}

/// A two-step chain of relations, tied to a scene schema.
pub struct ChainPatternDef {
    pub id: &'static str,
    pub step1: &'static str,
    pub step2: &'static str,
    pub scene_schema: &'static str,
}

/// A scene: three narrative slots under a schema.
pub struct SceneDef {
    pub id: &'static str,
    pub schema: &'static str,
    pub slots: [&'static str; 3],
}

impl View for PatternDef {
    type V = PatternView;

    open spec fn view(&self) -> PatternView {
        PatternView {
            relation: self.relation@,
            id: self.id@,
            level: self.level,
            kind: self.kind@,
            tpl: self.tpl@,
            markers_zh: self.markers_zh@,
            strong_markers: strs_of(self.strong_markers@),
            weak_markers: strs_of(self.weak_markers@),
            seed_banned: strs_of(self.seed_banned@),
            check_regex: self.check_regex@,
        }
    }
}

impl View for ChainPatternDef {
    type V = ChainView;

    open spec fn view(&self) -> ChainView {
        ChainView {
            id: self.id@,
            step1: self.step1@,
            step2: self.step2@,
            scene_schema: self.scene_schema@,
        }
    }
}

impl View for SceneDef {
    type V = SceneView;

    open spec fn view(&self) -> SceneView {
        SceneView {
            id: self.id@,
            schema: self.schema@,
            p1: self.slots[0]@,
            p2: self.slots[1]@,
            p3: self.slots[2]@,
        }
    }
}

/// The texts among `a` and `b` that are not empty, in this order.
fn present_pair(a: &'static str, b: &'static str) -> (v: Vec<&'static str>)
    ensures
        strs_of(v@) == present(a@) + present(b@),
{
    let mut v: Vec<&'static str> = Vec::new();
    if !a.is_empty() {
        v.push(a);
    }
    if !b.is_empty() {
        v.push(b);
    }
    assert(strs_of(v@) =~= present(a@) + present(b@));
    v
}

/// The list made of `a`, or the empty list where `a` is the empty text.
fn present_one(a: &'static str) -> (v: Vec<&'static str>)
    ensures
        strs_of(v@) == present(a@),
{
    let mut v: Vec<&'static str> = Vec::new();
    if !a.is_empty() {
        v.push(a);
    }
    assert(strs_of(v@) =~= present(a@));
    v
}

/// The pattern in row `i`.
pub fn pattern_at(i: usize) -> (p: PatternDef)
    requires
        i < PATTERN_COUNT,
    ensures
        p@ == pattern_view(i as int),
{
    let row = PATTERNS[i];
    PatternDef {
        relation: row[0],
        id: row[1],
        level: PATTERN_LEVELS[i],
        kind: row[2],
        tpl: row[3],
        markers_zh: row[4],
        strong_markers: present_pair(row[6], row[7]),
        weak_markers: present_one(row[8]),
        seed_banned: present_pair(row[9], row[10]),
        check_regex: row[5],
    }
}

/// The chain in row `i`.
pub fn chain_at(i: usize) -> (c: ChainPatternDef)
    requires
        i < CHAIN_COUNT,
    ensures
        c@ == chain_view(i as int),
{
    let row = CHAINS[i];
    ChainPatternDef { id: row[0], step1: row[1], step2: row[2], scene_schema: row[3] }
}

/// The scene in row `i`.
pub fn scene_at(i: usize) -> (s: SceneDef)
    requires
        i < SCENE_COUNT,
    ensures
        s@ == scene_view(i as int),
{
    let row = SCENES[i];
    SceneDef { id: row[0], schema: row[1], slots: [row[2], row[3], row[4]] }
}

/// The rows below `n` that hold a pattern of the relation `relation`, in
/// ascending order.
pub open spec fn relation_rows(relation: Seq<char>, n: int) -> Seq<int>
    decreases n,
{
    if n <= 0 {
        Seq::empty()
    } else if pattern_view(n - 1).relation == relation {
        relation_rows(relation, n - 1).push(n - 1)
    } else {
        relation_rows(relation, n - 1)
    }
}

/// The rows of `v` as mathematical integers.
pub open spec fn rows_of(v: Seq<usize>) -> Seq<int> {
    Seq::new(v.len(), |k: int| v[k] as int)
}

/// The rows of the patterns of one relation, in the order of the table. A
/// relation that the catalog does not know has none.
pub fn patterns_for_relation(relation: &str) -> (rows: Vec<usize>)
    ensures
        rows_of(rows@) == relation_rows(relation@, PATTERN_COUNT as int),
{
    let mut rows: Vec<usize> = Vec::new();
    let mut i: usize = 0;
    while i < PATTERN_COUNT
        invariant
            i <= PATTERN_COUNT,
            rows_of(rows@) == relation_rows(relation@, i as int),
        decreases PATTERN_COUNT - i,
    {
        let ghost before = rows_of(rows@);
        if same_text(PATTERNS[i][0], relation) {
            rows.push(i);
            assert(rows_of(rows@) == before.push(i as int));
        }
        i += 1;
    }
    rows
}

/// `relation_rows` holds exactly the rows below `n` of that relation.
pub proof fn lemma_relation_rows(relation: Seq<char>, n: int)
    ensures
        forall|k: int|
            0 <= k < relation_rows(relation, n).len() ==> {
                let row = #[trigger] relation_rows(relation, n)[k];
                0 <= row < n && pattern_view(row).relation == relation
            },
        forall|row: int|
            0 <= row < n && pattern_view(row).relation == relation ==> relation_rows(
                relation,
                n,
            ).contains(row),
    decreases n,
{
    if n > 0 {
        lemma_relation_rows(relation, n - 1);
        let prev = relation_rows(relation, n - 1);
        let cur = relation_rows(relation, n);
        assert forall|row: int|
            0 <= row < n && pattern_view(row).relation == relation implies cur.contains(row) by {
            if row < n - 1 {
                assert(prev.contains(row));
                let k = choose|k: int| 0 <= k < prev.len() && prev[k] == row;
                if pattern_view(n - 1).relation == relation {
                    assert(cur[k] == row);
                }
            } else {
                assert(cur[cur.len() - 1] == row);
            }
        }
    }
}

} // verus!
