//! What holds of the analyzer and of the rule table for every input.

use crate::configs::{row_offers, ConfigReader};
use crate::pattern::pattern_matches;
use crate::text::{cell_of, decimal_digits, digit_char, table_view};
use crate::utils::{
    analysis, analysis_text, creator_text, decoded_text, finding_view, is_compressed,
    is_whitelisted, length_text, matched_text, obfuscation_of, row_fires, rule_text,
    surfaced_text, Finding,
};
use vstd::prelude::*;
use vstd::utf8::encode_utf8;

verus! {

/// A command that one of the whitelist patterns matches is never reported,
/// whatever its length, its characters, its creator, its payload and the
/// rules say.
pub proof fn whitelist_vetoes_analysis(
    config: &ConfigReader,
    event_id: usize,
    command: Seq<char>,
    minlength: nat,
    servicecmd: usize,
    servicename: Seq<char>,
    creator: Seq<char>,
    system_time: Seq<char>,
)
    requires
        is_whitelisted(config.whitelist_regex@, command),
    ensures
        analysis(
            config,
            event_id,
            command,
            minlength,
            servicecmd,
            servicename,
            creator,
            system_time,
        ).is_none(),
{
}

/// What is found on a command apart from its length.
pub open spec fn text_beyond_length(config: &ConfigReader, command: Seq<char>, creator: Seq<char>) -> Seq<
    char,
> {
    obfuscation_of(config.noalpha_regex@, config.nobinary_regex@, command) + rule_text(
        config,
        command,
        0,
    ) + creator_text(command, creator) + decoded_text(
        config,
        is_compressed(config, command),
        surfaced_text(config, command),
    )
}

/// A command of at most `minlength` bytes gets no finding for its length.
/// A longer one gets it at the head of the findings, and it names the
/// threshold.
pub proof fn length_finding_follows_threshold(
    config: &ConfigReader,
    command: Seq<char>,
    minlength: nat,
    creator: Seq<char>,
)
    ensures
        encode_utf8(command).len() <= minlength ==> analysis_text(
            config,
            command,
            minlength,
            creator,
        ) == text_beyond_length(config, command, creator),
        encode_utf8(command).len() > minlength ==> analysis_text(
            config,
            command,
            minlength,
            creator,
        ) == "Long Command Line: greater than "@ + decimal_digits(minlength) + " bytes\n"@
            + text_beyond_length(config, command, creator),
{
    let len = encode_utf8(command).len();
    assert(analysis_text(config, command, minlength, creator) =~= length_text(len, minlength)
        + text_beyond_length(config, command, creator));
    if len <= minlength {
        assert(length_text(len, minlength) + text_beyond_length(config, command, creator)
            =~= text_beyond_length(config, command, creator));
    }
}

/// Two analyses of one command against one registry report the same: none
/// both times, or the same findings in the same words.
pub proof fn analysis_is_repeatable(
    config: &ConfigReader,
    event_id: usize,
    command: Seq<char>,
    minlength: nat,
    servicecmd: usize,
    servicename: Seq<char>,
    creator: Seq<char>,
    system_time: Seq<char>,
    first: Option<Finding>,
    second: Option<Finding>,
)
    requires
        finding_view(first) == analysis(
            config,
            event_id,
            command,
            minlength,
            servicecmd,
            servicename,
            creator,
            system_time,
        ),
        finding_view(second) == analysis(
            config,
            event_id,
            command,
            minlength,
            servicecmd,
            servicename,
            creator,
            system_time,
        ),
    ensures
        first.is_some() == second.is_some(),
        first.is_some() ==> first.unwrap().result@ == second.unwrap().result@,
        finding_view(first) == finding_view(second),
{
}

/// The findings of a command do not depend on the event, the time or the
/// service that it is reported for.
pub proof fn findings_depend_on_command_alone(
    config: &ConfigReader,
    command: Seq<char>,
    minlength: nat,
    creator: Seq<char>,
    event_a: usize,
    event_b: usize,
    servicecmd_a: usize,
    servicecmd_b: usize,
    servicename_a: Seq<char>,
    servicename_b: Seq<char>,
    time_a: Seq<char>,
    time_b: Seq<char>,
)
    ensures
        ({
            let a = analysis(
                config,
                event_a,
                command,
                minlength,
                servicecmd_a,
                servicename_a,
                creator,
                time_a,
            );
            let b = analysis(
                config,
                event_b,
                command,
                minlength,
                servicecmd_b,
                servicename_b,
                creator,
                time_b,
            );
            &&& a.is_some() == b.is_some()
            &&& a.is_some() ==> a.unwrap().result == b.unwrap().result && a.unwrap().decoded
                == b.unwrap().decoded
        }),
{
}

/// A decoded payload is announced once and held against the obfuscation
/// checks and the command-line rules, and nothing else is done with it:
/// what is said of it is the same for any two texts that these checks do
/// not tell apart, whatever either of them would decode to.
pub proof fn decoding_is_one_level(
    config: &ConfigReader,
    compressed: bool,
    first: Seq<char>,
    second: Seq<char>,
)
    requires
        obfuscation_of(config.noalpha_regex@, config.nobinary_regex@, first) == obfuscation_of(
            config.noalpha_regex@,
            config.nobinary_regex@,
            second,
        ),
        rule_text(config, first, 0) == rule_text(config, second, 0),
    ensures
        decoded_text(config, compressed, Some(first)) == decoded_text(
            config,
            compressed,
            Some(second),
        ),
        !compressed ==> decoded_text(config, compressed, Some(first))
            == "Base64-encoded function\n"@ + obfuscation_of(
            config.noalpha_regex@,
            config.nobinary_regex@,
            first,
        ) + rule_text(config, first, 0),
        compressed ==> decoded_text(config, compressed, Some(first))
            == "Base64-encoded and compressed function\n"@,
{
}

/// The decimal digits of a number are at least one.
pub proof fn decimal_digits_nonempty(n: nat)
    ensures
        decimal_digits(n).len() >= 1,
    decreases n,
{
    if n >= 10 {
        decimal_digits_nonempty(n / 10);
    }
}

/// Two numbers with the same decimal digits are the same number.
pub proof fn decimal_digits_injective(a: nat, b: nat)
    requires
        decimal_digits(a) == decimal_digits(b),
    ensures
        a == b,
    decreases a,
{
    if a < 10 && b < 10 {
        assert(decimal_digits(a)[0] == digit_char(a));
        assert(decimal_digits(b)[0] == digit_char(b));
        digit_char_injective(a, b);
    } else if a < 10 {
        decimal_digits_nonempty(b / 10);
        assert(decimal_digits(a).len() == 1);
        assert(decimal_digits(b).len() == decimal_digits(b / 10).len() + 1);
    } else if b < 10 {
        decimal_digits_nonempty(a / 10);
        assert(decimal_digits(b).len() == 1);
        assert(decimal_digits(a).len() == decimal_digits(a / 10).len() + 1);
    } else {
        let da = decimal_digits(a / 10);
        let db = decimal_digits(b / 10);
        assert(decimal_digits(a) == da.push(digit_char(a % 10)));
        assert(decimal_digits(b) == db.push(digit_char(b % 10)));
        assert(da.push(digit_char(a % 10)).drop_last() =~= da);
        assert(db.push(digit_char(b % 10)).drop_last() =~= db);
        assert(da.push(digit_char(a % 10)).last() == digit_char(a % 10));
        assert(db.push(digit_char(b % 10)).last() == digit_char(b % 10));
        assert(da == db);
        assert(digit_char(a % 10) == digit_char(b % 10));
        digit_char_injective(a % 10, b % 10);
        decimal_digits_injective(a / 10, b / 10);
        assert(a == 10 * (a / 10) + a % 10);
        assert(b == 10 * (b / 10) + b % 10);
    }
}

/// Two digits with the same character are the same digit.
pub proof fn digit_char_injective(a: nat, b: nat)
    requires
        a < 10,
        b < 10,
        digit_char(a) == digit_char(b),
    ensures
        a == b,
{
}

/// A rule of one domain never fires when a text is held against another
/// domain.
pub proof fn rule_fires_in_its_domain_only(
    row: Seq<Seq<char>>,
    compiled: Set<Seq<char>>,
    text: Seq<char>,
    own: nat,
    other: nat,
)
    requires
        cell_of(row, 0) == decimal_digits(own),
        own != other,
    ensures
        !row_fires(row, compiled, text, other),
{
    if cell_of(row, 0) == decimal_digits(other) {
        decimal_digits_injective(own, other);
    }
}

/// The rows of `table` whose domain is `domain`.
pub open spec fn rules_of_domain(table: Seq<Seq<Seq<char>>>, domain: nat) -> Seq<Seq<Seq<char>>> {
    table.filter(|row: Seq<Seq<char>>| cell_of(row, 0) == decimal_digits(domain))
}

/// What the rule table says of a text for a domain is what the rules of
/// that domain say of it: the rules of every other domain add nothing.
pub proof fn matching_is_domain_scoped(
    table: Seq<Seq<Seq<char>>>,
    compiled: Set<Seq<char>>,
    text: Seq<char>,
    domain: nat,
)
    ensures
        matched_text(table, compiled, text, domain) == matched_text(
            rules_of_domain(table, domain),
            compiled,
            text,
            domain,
        ),
    decreases table.len(),
{
    reveal(Seq::filter);
    let pred = |row: Seq<Seq<char>>| cell_of(row, 0) == decimal_digits(domain);
    if table.len() > 0 {
        matching_is_domain_scoped(table.drop_last(), compiled, text, domain);
        let sub = table.drop_last().filter(pred);
        if pred(table.last()) {
            assert(table.filter(pred) == sub.push(table.last()));
            assert(sub.push(table.last()).drop_last() =~= sub);
        } else {
            assert(table.filter(pred) == sub);
        }
    }
}

/// A table that holds only rules of other domains says nothing of any text.
pub proof fn other_domains_never_fire(
    table: Seq<Seq<Seq<char>>>,
    compiled: Set<Seq<char>>,
    text: Seq<char>,
    domain: nat,
)
    requires
        forall|i: int| 0 <= i < table.len() ==> cell_of(#[trigger] table[i], 0) != decimal_digits(domain),
    ensures
        matched_text(table, compiled, text, domain) == Seq::<char>::empty(),
    decreases table.len(),
{
    if table.len() > 0 {
        other_domains_never_fire(table.drop_last(), compiled, text, domain);
    }
}

/// In a registry whose compiled patterns are those of its rule table, a
/// rule fires exactly when it is of the domain, has a pattern and a
/// description, and its pattern matches: no rule is lost for want of its
/// compiled pattern.
pub proof fn every_rule_of_the_table_is_compiled(
    config: &ConfigReader,
    index: int,
    text: Seq<char>,
    domain: nat,
)
    requires
        config.wf(),
        0 <= index < config.regex.len(),
    ensures
        ({
            let row = table_view(config.regex@)[index];
            row_fires(row, config.regexes@, text, domain) <==> {
                &&& cell_of(row, 0) == decimal_digits(domain)
                &&& cell_of(row, 1).len() > 0
                &&& pattern_matches(cell_of(row, 1), text)
                &&& cell_of(row, 2).len() > 0
            }
        }),
{
    let table = table_view(config.regex@);
    let row = table[index];
    if cell_of(row, 1).len() > 0 && pattern_matches(cell_of(row, 1), text) {
        assert(row_offers(table[index], cell_of(row, 1)));
        assert(config.regexes@.contains(cell_of(row, 1)));
    }
}

} // verus!
