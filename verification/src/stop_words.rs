//! The stop words that the tokenizers drop or keep whole: one-character
//! words and two-character words.

use vstd::prelude::*;

verus! {

/// A one-character stop word.
pub open spec fn is_stop_char(c: char) -> bool {
    c == '的' || c == '是' || c == '在' || c == '有' || c == '和' || c == '与' || c == '及' || c == '或'
        || c == '但' || c == '而' || c == '也' || c == '都' || c == '就' || c == '被' || c == '把' || c == '让'
        || c == '给' || c == '到' || c == '从' || c == '向' || c == '对' || c == '于' || c == '等' || c == '这'
        || c == '那' || c == '个' || c == '些' || c == '之' || c == '为' || c == '以' || c == '因' || c == '所'
        || c == '最' || c == '更' || c == '较' || c == '比' || c == '像' || c == '似' || c == '如' || c == '同'
        || c == '跟' || c == '暨'
}

/// A two-character stop word, given by its two characters.
pub open spec fn is_stop_pair(a: char, b: char) -> bool {
    (a == '可' && b == '以') || (a == '能' && b == '够') || (a == '已' && b == '经') || (a == '正' && b == '在')
        || (a == '将' && b == '要') || (a == '不' && b == '会') || (a == '没' && b == '有') || (a == '不' && b == '是')
        || (a == '就' && b == '是') || (a == '还' && b == '是') || (a == '或' && b == '者') || (a == '并' && b == '且')
        || (a == '但' && b == '是') || (a == '然' && b == '而') || (a == '因' && b == '此') || (a == '所' && b == '以')
        || (a == '因' && b == '为') || (a == '由' && b == '于') || (a == '虽' && b == '然') || (a == '尽' && b == '管')
        || (a == '即' && b == '使') || (a == '就' && b == '算') || (a == '只' && b == '要') || (a == '只' && b == '有')
        || (a == '除' && b == '非') || (a == '无' && b == '论') || (a == '不' && b == '管') || (a == '凡' && b == '是')
        || (a == '所' && b == '有') || (a == '全' && b == '部') || (a == '一' && b == '切') || (a == '任' && b == '何')
        || (a == '每' && b == '个') || (a == '各' && b == '个') || (a == '各' && b == '种') || (a == '各' && b == '类')
        || (a == '各' && b == '项') || (a == '各' && b == '位') || (a == '许' && b == '多') || (a == '很' && b == '多')
        || (a == '不' && b == '少') || (a == '大' && b == '量') || (a == '众' && b == '多') || (a == '诸' && b == '多')
        || (a == '若' && b == '干') || (a == '一' && b == '些') || (a == '一' && b == '点') || (a == '少' && b == '许')
        || (a == '稍' && b == '微') || (a == '比' && b == '较') || (a == '相' && b == '当') || (a == '非' && b == '常')
        || (a == '极' && b == '其') || (a == '特' && b == '别') || (a == '尤' && b == '其') || (a == '更' && b == '加')
        || (a == '越' && b == '发') || (a == '以' && b == '及') || (a == '及' && b == '于') || (a == '至' && b == '于')
        || (a == '关' && b == '于') || (a == '对' && b == '于') || (a == '针' && b == '对') || (a == '按' && b == '照')
        || (a == '根' && b == '据') || (a == '依' && b == '据') || (a == '凭' && b == '借') || (a == '通' && b == '过')
        || (a == '经' && b == '过') || (a == '经' && b == '由') || (a == '鉴' && b == '于') || (a == '出' && b == '于')
        || (a == '多' && b == '亏') || (a == '幸' && b == '亏') || (a == '幸' && b == '好') || (a == '好' && b == '在')
        || (a == '可' && b == '惜') || (a == '遗' && b == '憾') || (a == '不' && b == '幸') || (a == '幸' && b == '运')
        || (a == '可' && b == '喜') || (a == '可' && b == '贺') || (a == '可' && b == '悲') || (a == '可' && b == '叹')
        || (a == '可' && b == '怜') || (a == '可' && b == '恨') || (a == '可' && b == '恶') || (a == '可' && b == '气')
        || (a == '可' && b == '笑')
}

/// A stop word of either length, as a sequence of characters.
pub open spec fn is_stop_word(w: Seq<char>) -> bool {
    (w.len() == 1 && is_stop_char(w[0])) || (w.len() == 2 && is_stop_pair(w[0], w[1]))
}

/// Whether `c` alone is a stop word.
pub fn stop_char(c: char) -> (res: bool)
    ensures
        res == is_stop_char(c),
{
    match c {
        '的' | '是' | '在' | '有' | '和' | '与' | '及' | '或'
        | '但' | '而' | '也' | '都' | '就' | '被' | '把' | '让'
        | '给' | '到' | '从' | '向' | '对' | '于' | '等' | '这'
        | '那' | '个' | '些' | '之' | '为' | '以' | '因' | '所'
        | '最' | '更' | '较' | '比' | '像' | '似' | '如' | '同'
        | '跟' | '暨' => true,
        _ => false,
    }
}

/// Whether the two characters `a`, `b` form a stop word.
pub fn stop_pair(a: char, b: char) -> (res: bool)
    ensures
        res == is_stop_pair(a, b),
{
    match (a, b) {
        ('可', '以') | ('能', '够') | ('已', '经') | ('正', '在')
        | ('将', '要') | ('不', '会') | ('没', '有') | ('不', '是')
        | ('就', '是') | ('还', '是') | ('或', '者') | ('并', '且')
        | ('但', '是') | ('然', '而') | ('因', '此') | ('所', '以')
        | ('因', '为') | ('由', '于') | ('虽', '然') | ('尽', '管')
        | ('即', '使') | ('就', '算') | ('只', '要') | ('只', '有')
        | ('除', '非') | ('无', '论') | ('不', '管') | ('凡', '是')
        | ('所', '有') | ('全', '部') | ('一', '切') | ('任', '何')
        | ('每', '个') | ('各', '个') | ('各', '种') | ('各', '类')
        | ('各', '项') | ('各', '位') | ('许', '多') | ('很', '多')
        | ('不', '少') | ('大', '量') | ('众', '多') | ('诸', '多')
        | ('若', '干') | ('一', '些') | ('一', '点') | ('少', '许')
        | ('稍', '微') | ('比', '较') | ('相', '当') | ('非', '常')
        | ('极', '其') | ('特', '别') | ('尤', '其') | ('更', '加')
        | ('越', '发') | ('以', '及') | ('及', '于') | ('至', '于')
        | ('关', '于') | ('对', '于') | ('针', '对') | ('按', '照')
        | ('根', '据') | ('依', '据') | ('凭', '借') | ('通', '过')
        | ('经', '过') | ('经', '由') | ('鉴', '于') | ('出', '于')
        | ('多', '亏') | ('幸', '亏') | ('幸', '好') | ('好', '在')
        | ('可', '惜') | ('遗', '憾') | ('不', '幸') | ('幸', '运')
        | ('可', '喜') | ('可', '贺') | ('可', '悲') | ('可', '叹')
        | ('可', '怜') | ('可', '恨') | ('可', '恶') | ('可', '气')
        | ('可', '笑') => true,
        _ => false,
    }
}

} // verus!
