//! The CLI's check that it is not older than the Golem servers it talks to.

use vstd::prelude::*;
use vstd::string::*;
use version_compare::{compare, Cmp};

verus! {

/// Result of a CLI command that succeeded.
#[derive(Debug)]
pub enum GolemResult {
    Str(String),
}

/// Error of a CLI command, with the message shown to the user.
#[derive(Debug)]
pub struct GolemError(pub String);

/// How one version compares to another.
#[derive(Debug, Clone, Copy, PartialEq, Eq, Structural)]
pub enum VersionOrder {
    Less,
    Equal,
    Greater,
}

/// What `version_compare::compare` says of two version strings: `None` where
/// either string is not a version, else how the first compares to the second.
pub uninterp spec fn version_order(a: Seq<char>, b: Seq<char>) -> Option<VersionOrder>;

/// The comparison of `b` with `a`, given that of `a` with `b`.
pub open spec fn reversed(o: Option<VersionOrder>) -> Option<VersionOrder> {
    match o {
        Some(VersionOrder::Less) => Some(VersionOrder::Greater),
        Some(VersionOrder::Greater) => Some(VersionOrder::Less),
        other => other,
    }
}

/// The decimal digits of `n`.
pub open spec fn decimal(n: nat) -> Seq<char>
    decreases n,
{
    if n < 10 {
        seq![(n + 48) as char]
    } else {
        decimal(n / 10).push(((n % 10) + 48) as char)
    }
}

/// The version string whose parts are the numbers `parts`, written in
/// decimal and separated by dots.
pub open spec fn dotted(parts: Seq<nat>) -> Seq<char>
    decreases parts.len(),
{
    if parts.len() == 0 {
        Seq::empty()
    } else if parts.len() == 1 {
        decimal(parts[0])
    } else {
        dotted(parts.drop_last()).push('.') + decimal(parts.last())
    }
}

/// Whether `parts` are the parts of a numeric version: at least one, each a
/// 32-bit signed number.
pub open spec fn numeric_version(parts: Seq<nat>) -> bool {
    parts.len() > 0 && forall|i: int| 0 <= i < parts.len() ==> #[trigger] parts[i] <= 0x7fff_ffff
}

/// Part `k` of a version; a part past the end reads as 0.
pub open spec fn part_at(parts: Seq<nat>, k: int) -> nat {
    if 0 <= k < parts.len() {
        parts[k]
    } else {
        0
    }
}

/// How numeric version `a` compares to `b` from part `k` on: by the first
/// part in which they differ.
pub open spec fn numeric_order_from(a: Seq<nat>, b: Seq<nat>, k: nat) -> VersionOrder
    decreases a.len() + b.len() - k,
{
    if k >= a.len() && k >= b.len() {
        VersionOrder::Equal
    } else if part_at(a, k as int) < part_at(b, k as int) {
        VersionOrder::Less
    } else if part_at(a, k as int) > part_at(b, k as int) {
        VersionOrder::Greater
    } else {
        numeric_order_from(a, b, k + 1)
    }
}

/// How numeric version `a` compares to `b`: part by part from the first,
/// missing parts reading as 0.
pub open spec fn numeric_order(a: Seq<nat>, b: Seq<nat>) -> VersionOrder {
    numeric_order_from(a, b, 0)
}

/// Calls `version_compare::compare(a, b)`. The contract claims that the
/// result is the named `version_order` of the two strings, and that comparing
/// the strings the other way round gives the reversed answer: `compare`
/// parses each string on its own, and its part-by-part comparison answers
/// `Lt` where the swapped comparison answers `Gt`. For versions made of
/// decimal numbers separated by dots, the crate splits the string at the dots
/// into numeric parts and compares them one by one, a missing part counting
/// as 0; the contract states that order. The comparison of other versions
/// (with text parts) is not stated. The crate documents that `compare` returns
/// `Eq`, `Lt` or `Gt`, or an error where either string does not parse; any
/// other answer is mapped to `None` as well.
#[verifier::external_body]
fn compare_versions(a: &str, b: &str) -> (r: Option<VersionOrder>)
    ensures
        r == version_order(a@, b@),
        version_order(b@, a@) == reversed(r),
        forall|p: Seq<nat>, q: Seq<nat>|
            #![trigger dotted(p), dotted(q)]
            numeric_version(p) && numeric_version(q) && a@ == dotted(p) && b@ == dotted(q) ==> r
                == Some(numeric_order(p, q)),
{
    match compare(a, b) {
        Ok(Cmp::Lt) => Some(VersionOrder::Less),
        Ok(Cmp::Eq) => Some(VersionOrder::Equal),
        Ok(Cmp::Gt) => Some(VersionOrder::Greater),
        _ => None,
    }
}

/// The message that tells the user to upgrade the CLI to `server`.
pub open spec fn update_warning(cli: Seq<char>, server: Seq<char>) -> Seq<char> {
    "Warning: golem-cli "@ + cli + " is older than the targeted Golem servers ("@ + server
        + ")\nInstall the matching version with:\n"@ + "cargo install golem-cli@"@ + server + "\n"@
}

/// The message when the CLI is up to date.
pub open spec fn no_updates_message() -> Seq<char> {
    "No updates found"@
}

/// The outcome of the check, as text: `Ok` carries the success message and
/// `Err` the warning. When the CLI is older than either server, the warning
/// names the template server's version if it is greater than the worker
/// server's, and the worker server's otherwise.
pub open spec fn check_outcome(
    cli: Seq<char>,
    template: Seq<char>,
    worker: Seq<char>,
    cli_vs_template: VersionOrder,
    cli_vs_worker: VersionOrder,
    template_vs_worker: VersionOrder,
) -> Result<Seq<char>, Seq<char>> {
    if cli_vs_template == VersionOrder::Less || cli_vs_worker == VersionOrder::Less {
        if template_vs_worker == VersionOrder::Greater {
            Err(update_warning(cli, template))
        } else {
            Err(update_warning(cli, worker))
        }
    } else {
        Ok(no_updates_message())
    }
}

/// The text that a check result carries.
pub open spec fn result_text(r: Result<GolemResult, GolemError>) -> Result<Seq<char>, Seq<char>> {
    match r {
        Ok(GolemResult::Str(s)) => Ok(s@),
        Err(GolemError(s)) => Err(s@),
    }
}

/// Builds the warning that asks the user to install the CLI version `server`.
pub fn update_warning_text(cli: &str, server: &str) -> (r: String)
    ensures
        r@ == update_warning(cli@, server@),
        r@ == "Warning: golem-cli "@ + cli@ + " is older than the targeted Golem servers ("@
            + server@ + ")\nInstall the matching version with:\n"@ + "cargo install golem-cli@"@
            + server@ + "\n"@,
        r@.len() >= ("cargo install golem-cli@"@ + server@ + "\n"@).len(),
        r@.skip(r@.len() - ("cargo install golem-cli@"@ + server@ + "\n"@).len())
            == "cargo install golem-cli@"@ + server@ + "\n"@,
{
    let mut s = String::from_str("Warning: golem-cli ");
    s.append(cli);
    s.append(" is older than the targeted Golem servers (");
    s.append(server);
    s.append(")\nInstall the matching version with:\n");
    s.append("cargo install golem-cli@");
    s.append(server);
    s.append("\n");
    proof {
        lemma_update_warning_installs_server(cli@, server@);
    }
    s
}

/// Decides the check from the three version comparisons.
pub fn select_outcome(
    cli: &str,
    template: &str,
    worker: &str,
    cli_vs_template: VersionOrder,
    cli_vs_worker: VersionOrder,
    template_vs_worker: VersionOrder,
) -> (r: Result<GolemResult, GolemError>)
    ensures
        result_text(r) == check_outcome(
            cli@,
            template@,
            worker@,
            cli_vs_template,
            cli_vs_worker,
            template_vs_worker,
        ),
{
    if cli_vs_template == VersionOrder::Less || cli_vs_worker == VersionOrder::Less {
        if template_vs_worker == VersionOrder::Greater {
            Err(GolemError(update_warning_text(cli, template)))
        } else {
            Err(GolemError(update_warning_text(cli, worker)))
        }
    } else {
        Ok(GolemResult::Str(String::from_str("No updates found")))
    }
}

/// Checks the CLI version against the versions reported by the template and
/// worker servers. `None` where one of the three strings is not a version.
pub fn check_versions(cli: &str, template: &str, worker: &str) -> (r: Option<
    Result<GolemResult, GolemError>,
>)
    ensures
        r is None <==> (version_order(cli@, template@) is None || version_order(cli@, worker@) is None
            || version_order(template@, worker@) is None),
        r matches Some(res) ==> result_text(res) == check_outcome(
            cli@,
            template@,
            worker@,
            version_order(cli@, template@)->0,
            version_order(cli@, worker@)->0,
            version_order(template@, worker@)->0,
        ),
        version_order(worker@, template@) == reversed(version_order(template@, worker@)),
        forall|p: Seq<nat>, q: Seq<nat>, w: Seq<nat>|
            #![trigger dotted(p), dotted(q), dotted(w)]
            numeric_version(p) && numeric_version(q) && numeric_version(w) && cli@ == dotted(p)
                && template@ == dotted(q) && worker@ == dotted(w) ==> (r matches Some(res) && (res is Ok
                <==> (numeric_order(p, q) != VersionOrder::Less && numeric_order(p, w)
                != VersionOrder::Less))),
        r matches Some(res) ==> (template@ == worker@ || version_order(template@, worker@) != Some(
            VersionOrder::Equal,
        )) ==> result_text(res) == check_outcome(
            cli@,
            worker@,
            template@,
            version_order(cli@, worker@)->0,
            version_order(cli@, template@)->0,
            version_order(worker@, template@)->0,
        ),
{
    let cli_vs_template = compare_versions(cli, template);
    let cli_vs_worker = compare_versions(cli, worker);
    let template_vs_worker = compare_versions(template, worker);
    match (cli_vs_template, cli_vs_worker, template_vs_worker) {
        (Some(a), Some(b), Some(c)) => {
            proof {
                if template@ == worker@ || c != VersionOrder::Equal {
                    lemma_check_outcome_symmetric(
                        cli@,
                        template@,
                        worker@,
                        a,
                        b,
                        c,
                        version_order(worker@, template@)->0,
                    );
                }
            }
            Some(select_outcome(cli, template, worker, a, b, c))
        },
        _ => None,
    }
}

/// The check succeeds exactly when the CLI is older than neither server, and
/// then says that no updates were found; otherwise the warning asks for the
/// newer server's version: the template server's when it is greater than the
/// worker server's, the worker server's otherwise.
pub proof fn lemma_check_outcome_cases(
    cli: Seq<char>,
    template: Seq<char>,
    worker: Seq<char>,
    cli_vs_template: VersionOrder,
    cli_vs_worker: VersionOrder,
    template_vs_worker: VersionOrder,
)
    ensures
        ({
            let r = check_outcome(cli, template, worker, cli_vs_template, cli_vs_worker, template_vs_worker);
            &&& r is Ok <==> (cli_vs_template != VersionOrder::Less && cli_vs_worker != VersionOrder::Less)
            &&& r matches Ok(m) ==> m == "No updates found"@
            &&& (r is Err && template_vs_worker == VersionOrder::Greater) ==> r == Err::<Seq<char>, Seq<char>>(update_warning(cli, template))
            &&& (r is Err && template_vs_worker != VersionOrder::Greater) ==> r == Err::<Seq<char>, Seq<char>>(update_warning(cli, worker))
        }),
{
}

/// Which server reports which version does not matter: swapping the
/// template and worker versions gives the same outcome, unless the two are
/// different strings of equal versions, where the warning names the worker
/// server's string.
pub proof fn lemma_check_outcome_symmetric(
    cli: Seq<char>,
    a: Seq<char>,
    b: Seq<char>,
    cli_vs_a: VersionOrder,
    cli_vs_b: VersionOrder,
    a_vs_b: VersionOrder,
    b_vs_a: VersionOrder,
)
    requires
        Some(b_vs_a) == reversed(Some(a_vs_b)),
        a == b || a_vs_b != VersionOrder::Equal,
    ensures
        check_outcome(cli, a, b, cli_vs_a, cli_vs_b, a_vs_b) == check_outcome(
            cli,
            b,
            a,
            cli_vs_b,
            cli_vs_a,
            b_vs_a,
        ),
{
}

/// Whatever the CLI's version, the warning's last line installs the server's
/// version: it ends with `cargo install golem-cli@`, the server's version and
/// a newline.
pub proof fn lemma_update_warning_installs_server(cli: Seq<char>, server: Seq<char>)
    ensures
        update_warning(cli, server).len() >= ("cargo install golem-cli@"@ + server + "\n"@).len(),
        update_warning(cli, server).skip(
            update_warning(cli, server).len() - ("cargo install golem-cli@"@ + server + "\n"@).len(),
        ) == "cargo install golem-cli@"@ + server + "\n"@,
{
    let tail = "cargo install golem-cli@"@ + server + "\n"@;
    let head = "Warning: golem-cli "@ + cli + " is older than the targeted Golem servers ("@ + server
        + ")\nInstall the matching version with:\n"@;
    let w = update_warning(cli, server);
    assert(w =~= head + tail);
    assert(w.skip(w.len() - tail.len()) =~= tail);
}

/// Of two numeric versions, the one with the smaller number at the first
/// part where they differ is the older, whatever the later parts are.
pub proof fn lemma_first_difference_decides(a: Seq<nat>, b: Seq<nat>, k: nat)
    requires
        forall|j: int| 0 <= j < k ==> part_at(a, j) == part_at(b, j),
        part_at(a, k as int) < part_at(b, k as int),
    ensures
        numeric_order(a, b) == VersionOrder::Less,
        numeric_order(b, a) == VersionOrder::Greater,
{
    lemma_order_from_decides(a, b, k, 0);
}

proof fn lemma_order_from_decides(a: Seq<nat>, b: Seq<nat>, k: nat, start: nat)
    requires
        start <= k,
        forall|j: int| 0 <= j < k ==> part_at(a, j) == part_at(b, j),
        part_at(a, k as int) < part_at(b, k as int),
    ensures
        numeric_order_from(a, b, start) == VersionOrder::Less,
        numeric_order_from(b, a, start) == VersionOrder::Greater,
    decreases k - start,
{
    assert(k < a.len() || k < b.len());
    if start < k {
        assert(part_at(a, start as int) == part_at(b, start as int));
        lemma_order_from_decides(a, b, k, start + 1);
    }
}

/// Raising the minor part makes a newer version, whatever the patch part:
/// `x.y.z` is older than `x.(y+1).0`.
pub proof fn lemma_minor_bump_is_newer(x: nat, y: nat, z: nat)
    ensures
        numeric_order(seq![x, y, z], seq![x, y + 1, 0]) == VersionOrder::Less,
{
    let a = seq![x, y, z];
    let b = seq![x, y + 1, 0nat];
    assert(part_at(a, 0) == part_at(b, 0));
    lemma_first_difference_decides(a, b, 1);
}

} // verus!
