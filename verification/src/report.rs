//! The nine-line report: the machine facts it shows, the fixed labels,
//! their decorated display forms, and the assembly of the lines in their
//! fixed order.

use vstd::prelude::*;
use crate::numfmt::{gb_string, format_gb, format_uptime, uptime_string};
use colored::Colorize;

verus! {

/// The machine facts the report renders. Callers collect them; the
/// library never queries the machine itself. An absent optional fact is
/// rendered as the literal "Unknown".
pub struct SystemFacts {
    pub os_name: Option<String>,
    pub os_version: Option<String>,
    pub kernel_version: Option<String>,
    pub cpu_arch: String,
    pub cpu_brand: Option<String>,
    pub uptime_seconds: u64,
    pub total_memory_bytes: u64,
    pub used_memory_bytes: u64,
    pub total_swap_bytes: u64,
    pub used_swap_bytes: u64,
    pub user_name: Option<String>,
    pub host_name: Option<String>,
}

/// The text an optional fact shows: the value, or "Unknown" when absent.
pub open spec fn shown(o: Option<String>) -> Seq<char> {
    match o {
        Option::Some(s) => s@,
        Option::None => "Unknown"@,
    }
}

/// Substitutes "Unknown" for an absent fact, at the point of use.
pub fn shown_text(o: &Option<String>) -> (r: String)
    ensures
        r@ == shown(*o),
{
    match o {
        Option::Some(s) => s.clone(),
        Option::None => String::from_str("Unknown"),
    }
}

/// The brand of the first enumerated CPU, if any CPU was enumerated.
pub fn cpu_brand_of(brands: &Vec<String>) -> (r: Option<String>)
    ensures
        brands@.len() > 0 ==> r == Some(brands@[0]),
        brands@.len() == 0 ==> r is None,
{
    if brands.len() > 0 {
        Some(brands[0].clone())
    } else {
        None
    }
}

/// The fixed labels of the report body, one per line.
pub enum Label {
    Os,
    Kernel,
    Uptime,
    Cpu,
    Gpu,
    Memory,
    Swap,
}

/// The text of a label, colon included.
pub open spec fn label_text(l: Label) -> Seq<char> {
    match l {
        Label::Os => "OS:"@,
        Label::Kernel => "Kernel:"@,
        Label::Uptime => "Uptime:"@,
        Label::Cpu => "CPU:"@,
        Label::Gpu => "GPU:"@,
        Label::Memory => "Memory:"@,
        Label::Swap => "Swap:"@,
    }
}

/// The plain text of a label.
pub fn label_str(l: Label) -> (r: &'static str)
    ensures
        r@ == label_text(l),
{
    match l {
        Label::Os => "OS:",
        Label::Kernel => "Kernel:",
        Label::Uptime => "Uptime:",
        Label::Cpu => "CPU:",
        Label::Gpu => "GPU:",
        Label::Memory => "Memory:",
        Label::Swap => "Swap:",
    }
}

/// Text without the ANSI escape character. Styling passes such text
/// through unchanged between its style codes.
pub open spec fn esc_free(s: Seq<char>) -> bool {
    forall|i: int| 0 <= i < s.len() ==> s[i] != '\u{1b}'
}

/// `d` is `plain` surrounded by a (possibly empty) styling prefix and
/// suffix.
pub open spec fn wraps(d: Seq<char>, plain: Seq<char>) -> bool {
    exists|p: Seq<char>, q: Seq<char>| d == #[trigger] (p + plain + q)
}

/// Relies on colored's `Colorize::purple` and `Colorize::bold` for `&str`
/// and on `ColoredString`'s `Display`: when styling is disabled the input
/// is written unchanged, and otherwise an ANSI style prefix and the reset
/// suffix are written around the input, whose own text is rewritten only
/// when it already contains a reset sequence — impossible without the
/// escape character.
#[verifier::external_body]
fn purple_bold(s: &str) -> (r: String)
    ensures
        esc_free(s@) ==> wraps(r@, s@),
{
    s.purple().bold().to_string()
}

/// Relies on colored's `Colorize::strikethrough` for `&str` and on
/// `ColoredString`'s `Display`, exactly as `purple_bold` does.
#[verifier::external_body]
fn strikethrough_styled(s: &str) -> (r: String)
    ensures
        esc_free(s@) ==> wraps(r@, s@),
{
    s.strikethrough().to_string()
}

/// The decorated fragments of the report: the user and host names, the
/// "@" sign between them, the separator line and the seven labels, each
/// in its styled display form.
pub struct Decorations {
    pub user: String,
    pub at_sign: String,
    pub host: String,
    pub separator: String,
    pub os_label: String,
    pub kernel_label: String,
    pub uptime_label: String,
    pub cpu_label: String,
    pub gpu_label: String,
    pub memory_label: String,
    pub swap_label: String,
}

/// Every decorated fragment wraps the plain text it stands for.
pub open spec fn decorations_match(d: Decorations, f: SystemFacts) -> bool {
    &&& wraps(d.user@, shown(f.user_name))
    &&& wraps(d.at_sign@, "@"@)
    &&& wraps(d.host@, shown(f.host_name))
    &&& wraps(d.separator@, "          "@)
    &&& wraps(d.os_label@, label_text(Label::Os))
    &&& wraps(d.kernel_label@, label_text(Label::Kernel))
    &&& wraps(d.uptime_label@, label_text(Label::Uptime))
    &&& wraps(d.cpu_label@, label_text(Label::Cpu))
    &&& wraps(d.gpu_label@, label_text(Label::Gpu))
    &&& wraps(d.memory_label@, label_text(Label::Memory))
    &&& wraps(d.swap_label@, label_text(Label::Swap))
}

/// Undecorated fragments: each one is exactly its plain text.
pub fn plain_decorations(f: &SystemFacts) -> (d: Decorations)
    ensures
        d.user@ == shown(f.user_name),
        d.at_sign@ == "@"@,
        d.host@ == shown(f.host_name),
        d.separator@ == "          "@,
        d.os_label@ == label_text(Label::Os),
        d.kernel_label@ == label_text(Label::Kernel),
        d.uptime_label@ == label_text(Label::Uptime),
        d.cpu_label@ == label_text(Label::Cpu),
        d.gpu_label@ == label_text(Label::Gpu),
        d.memory_label@ == label_text(Label::Memory),
        d.swap_label@ == label_text(Label::Swap),
{
    Decorations {
        user: shown_text(&f.user_name),
        at_sign: String::from_str("@"),
        host: shown_text(&f.host_name),
        separator: String::from_str("          "),
        os_label: String::from_str(label_str(Label::Os)),
        kernel_label: String::from_str(label_str(Label::Kernel)),
        uptime_label: String::from_str(label_str(Label::Uptime)),
        cpu_label: String::from_str(label_str(Label::Cpu)),
        gpu_label: String::from_str(label_str(Label::Gpu)),
        memory_label: String::from_str(label_str(Label::Memory)),
        swap_label: String::from_str(label_str(Label::Swap)),
    }
}

/// Styles every fragment in bold purple, and the separator with a
/// strike-through. The promise holds when the user and host names are
/// free of the escape character; the labels always are.
pub fn styled_decorations(f: &SystemFacts) -> (d: Decorations)
    ensures
        esc_free(shown(f.user_name)) && esc_free(shown(f.host_name)) ==> decorations_match(
            d,
            *f,
        ),
{
    proof {
        reveal_strlit("@");
        reveal_strlit("          ");
        reveal_strlit("OS:");
        reveal_strlit("Kernel:");
        reveal_strlit("Uptime:");
        reveal_strlit("CPU:");
        reveal_strlit("GPU:");
        reveal_strlit("Memory:");
        reveal_strlit("Swap:");
    }
    let user = shown_text(&f.user_name);
    let host = shown_text(&f.host_name);
    Decorations {
        user: purple_bold(user.as_str()),
        at_sign: purple_bold("@"),
        host: purple_bold(host.as_str()),
        separator: strikethrough_styled("          "),
        os_label: purple_bold(label_str(Label::Os)),
        kernel_label: purple_bold(label_str(Label::Kernel)),
        uptime_label: purple_bold(label_str(Label::Uptime)),
        cpu_label: purple_bold(label_str(Label::Cpu)),
        gpu_label: purple_bold(label_str(Label::Gpu)),
        memory_label: purple_bold(label_str(Label::Memory)),
        swap_label: purple_bold(label_str(Label::Swap)),
    }
}

/// The nine report lines assembled from the given fragments, in the fixed
/// order: user@host, the separator, then OS, kernel, uptime, CPU, GPU,
/// memory and swap.
pub open spec fn styled_lines_seq(f: SystemFacts, gpu: Seq<char>, d: Decorations) -> Seq<
    Seq<char>,
> {
    seq![
        d.user@ + d.at_sign@ + d.host@,
        d.separator@,
        d.os_label@ + " "@ + shown(f.os_name) + " "@ + shown(f.os_version) + " "@ + f.cpu_arch@,
        d.kernel_label@ + " "@ + shown(f.kernel_version),
        d.uptime_label@ + " "@ + uptime_string(f.uptime_seconds as nat),
        d.cpu_label@ + " "@ + shown(f.cpu_brand),
        d.gpu_label@ + " "@ + gpu,
        d.memory_label@ + " "@ + gb_string(f.used_memory_bytes as nat) + " / "@ + gb_string(
            f.total_memory_bytes as nat,
        ),
        d.swap_label@ + " "@ + gb_string(f.used_swap_bytes as nat) + " / "@ + gb_string(
            f.total_swap_bytes as nat,
        ),
    ]
}

/// The nine undecorated report lines, in the fixed order.
pub open spec fn report_lines_seq(f: SystemFacts, gpu: Seq<char>) -> Seq<Seq<char>> {
    seq![
        shown(f.user_name) + "@"@ + shown(f.host_name),
        "          "@,
        label_text(Label::Os) + " "@ + shown(f.os_name) + " "@ + shown(f.os_version) + " "@
            + f.cpu_arch@,
        label_text(Label::Kernel) + " "@ + shown(f.kernel_version),
        label_text(Label::Uptime) + " "@ + uptime_string(f.uptime_seconds as nat),
        label_text(Label::Cpu) + " "@ + shown(f.cpu_brand),
        label_text(Label::Gpu) + " "@ + gpu,
        label_text(Label::Memory) + " "@ + gb_string(f.used_memory_bytes as nat) + " / "@
            + gb_string(f.total_memory_bytes as nat),
        label_text(Label::Swap) + " "@ + gb_string(f.used_swap_bytes as nat) + " / "@ + gb_string(
            f.total_swap_bytes as nat,
        ),
    ]
}

/// Assembles the report from pre-built fragments: exactly nine lines, in
/// the fixed order, each one the concatenation its spec gives.
pub fn report_lines_with(f: &SystemFacts, gpu: &str, d: &Decorations) -> (r: Vec<String>)
    ensures
        r@.map_values(|p: String| p@) == styled_lines_seq(*f, gpu@, *d),
{
    let mut r: Vec<String> = Vec::new();

    let mut l0 = d.user.clone();
    l0.append(d.at_sign.as_str());
    l0.append(d.host.as_str());
    r.push(l0);

    r.push(d.separator.clone());

    let mut l2 = d.os_label.clone();
    l2.append(" ");
    let os_name = shown_text(&f.os_name);
    l2.append(os_name.as_str());
    l2.append(" ");
    let os_version = shown_text(&f.os_version);
    l2.append(os_version.as_str());
    l2.append(" ");
    l2.append(f.cpu_arch.as_str());
    r.push(l2);

    let mut l3 = d.kernel_label.clone();
    l3.append(" ");
    let kernel = shown_text(&f.kernel_version);
    l3.append(kernel.as_str());
    r.push(l3);

    let mut l4 = d.uptime_label.clone();
    l4.append(" ");
    let uptime = format_uptime(f.uptime_seconds);
    l4.append(uptime.as_str());
    r.push(l4);

    let mut l5 = d.cpu_label.clone();
    l5.append(" ");
    let cpu = shown_text(&f.cpu_brand);
    l5.append(cpu.as_str());
    r.push(l5);

    let mut l6 = d.gpu_label.clone();
    l6.append(" ");
    l6.append(gpu);
    r.push(l6);

    let mut l7 = d.memory_label.clone();
    l7.append(" ");
    let used_mem = format_gb(f.used_memory_bytes);
    l7.append(used_mem.as_str());
    l7.append(" / ");
    let total_mem = format_gb(f.total_memory_bytes);
    l7.append(total_mem.as_str());
    r.push(l7);

    let mut l8 = d.swap_label.clone();
    l8.append(" ");
    let used_swap = format_gb(f.used_swap_bytes);
    l8.append(used_swap.as_str());
    l8.append(" / ");
    let total_swap = format_gb(f.total_swap_bytes);
    l8.append(total_swap.as_str());
    r.push(l8);

    proof {
        assert(r@.map_values(|p: String| p@) =~= styled_lines_seq(*f, gpu@, *d));
    }
    r
}

/// The plain report: exactly nine undecorated lines in the fixed order.
pub fn report_lines(f: &SystemFacts, gpu: &str) -> (r: Vec<String>)
    ensures
        r@.map_values(|p: String| p@) == report_lines_seq(*f, gpu@),
{
    let d = plain_decorations(f);
    let r = report_lines_with(f, gpu, &d);
    proof {
        assert(styled_lines_seq(*f, gpu@, d) =~= report_lines_seq(*f, gpu@));
    }
    r
}

/// The decorated report the tool prints: nine lines in the fixed order,
/// each fragment styled; when the user and host names are free of the
/// escape character, every decorated fragment wraps its plain text.
pub fn styled_report_lines(f: &SystemFacts, gpu: &str) -> (r: Vec<String>)
    ensures
        exists|d: Decorations|
            r@.map_values(|p: String| p@) == #[trigger] styled_lines_seq(*f, gpu@, d) && (esc_free(
                shown(f.user_name),
            ) && esc_free(shown(f.host_name)) ==> decorations_match(d, *f)),
{
    let d = styled_decorations(f);
    let r = report_lines_with(f, gpu, &d);
    proof {
        assert(r@.map_values(|p: String| p@) == styled_lines_seq(*f, gpu@, d));
    }
    r
}

} // verus!
