//! Layout of the composite USB gadget.
//!
//! The gadget is a directory tree under configfs with one HID function per
//! slot. This module says which steps build it, bind it and take it down; the
//! program carries them out.

use vstd::prelude::*;

use crate::hex;
use crate::hex::hex_to_bytes;
use crate::text;
use crate::text::labelled;

verus! {

/// Directory that configfs keeps USB gadgets in.
pub const GADGET_BASE: &'static str = "/sys/kernel/config/usb_gadget";

/// Name of this gadget.
pub const GADGET_NAME: &'static str = "switchbridge";

/// HID report descriptor of a Pro Controller.
pub const REPORT_DESC_HEX: &'static str = "050115000904A1018530050105091901290A150025017501950A5500650081020509190B290E150025017501950481027501950281030B01000100A1000B300001000B310001000B320001000B35000100150027FFFF0000751095048102C00B39000100150025073500463B0165147504950181020509190F2912150025017501950481027508953481030600FF852109017508953F8103858109027508953F8103850109037508953F9183851009047508953F9183858009057508953F9183858209067508953F9183C0";

/// Access mode of the device nodes: readable and writable by everyone.
pub const DEVICE_MODE: u32 = 0o666;

/// One step of building or removing the gadget.
#[derive(Debug)]
pub enum GadgetStep {
    /// Make a directory and those above it.
    MakeDir { path: String },
    WriteText { path: String, text: String },
    WriteBytes { path: String, bytes: Vec<u8> },
    /// Make a symbolic link at `link` to `target`.
    Link { target: String, link: String },
    /// Remove a directory and everything in it.
    RemoveTree { path: String },
    /// Remove an empty directory.
    RemoveDir { path: String },
}

/// What a step does, as characters and bytes.
pub enum StepView {
    MakeDir { path: Seq<char> },
    WriteText { path: Seq<char>, text: Seq<char> },
    WriteBytes { path: Seq<char>, bytes: Seq<u8> },
    Link { target: Seq<char>, link: Seq<char> },
    RemoveTree { path: Seq<char> },
    RemoveDir { path: Seq<char> },
}

impl View for GadgetStep {
    type V = StepView;

    open spec fn view(&self) -> StepView {
        match *self {
            GadgetStep::MakeDir { path } => StepView::MakeDir { path: path@ },
            GadgetStep::WriteText { path, text } => StepView::WriteText {
                path: path@,
                text: text@,
            },
            GadgetStep::WriteBytes { path, bytes } => StepView::WriteBytes {
                path: path@,
                bytes: bytes@,
            },
            GadgetStep::Link { target, link } => StepView::Link { target: target@, link: link@ },
            GadgetStep::RemoveTree { path } => StepView::RemoveTree { path: path@ },
            GadgetStep::RemoveDir { path } => StepView::RemoveDir { path: path@ },
        }
    }
}

/// What a run of steps does.
pub open spec fn steps_view(steps: Seq<GadgetStep>) -> Seq<StepView> {
    Seq::new(steps.len(), |i: int| steps[i]@)
}

/// The path of `name` in `dir`.
pub open spec fn joined(dir: Seq<char>, name: Seq<char>) -> Seq<char> {
    dir + "/"@ + name
}

fn join(dir: &str, name: &str) -> (path: String)
    ensures
        path@ == joined(dir@, name@),
{
    let mut path = dir.to_owned();
    path.append("/");
    path.append(name);
    path
}

pub open spec fn make_dir(path: Seq<char>) -> StepView {
    StepView::MakeDir { path }
}

/// Write `text` to the file `name` in `dir`.
pub open spec fn write_in(dir: Seq<char>, name: Seq<char>, text: Seq<char>) -> StepView {
    StepView::WriteText { path: joined(dir, name), text }
}

/// Bytes of the HID report descriptor.
pub open spec fn report_desc() -> Seq<u8> {
    hex::hex_bytes(REPORT_DESC_HEX@)
}

/// Name of the HID function of a slot.
pub open spec fn function_name(slot: int) -> Seq<char> {
    "hid.usb"@ + text::decimal(slot as nat)
}

/// Directory of the HID function of a slot.
pub open spec fn function_dir(root: Seq<char>, slot: int) -> Seq<char> {
    joined(joined(root, "functions"@), function_name(slot))
}

/// Directory of the gadget's configuration.
pub open spec fn config_dir(root: Seq<char>) -> Seq<char> {
    joined(root, "configs/c.1"@)
}

/// The steps that describe the device itself.
pub open spec fn device_steps(root: Seq<char>) -> Seq<StepView> {
    let strings = joined(root, "strings/0x409"@);
    let config = config_dir(root);
    seq![
        make_dir(root),
        write_in(root, "idVendor"@, "0x057e"@),
        write_in(root, "idProduct"@, "0x2009"@),
        write_in(root, "bcdUSB"@, "0x0200"@),
        write_in(root, "bDeviceClass"@, "0"@),
        make_dir(strings),
        write_in(strings, "serialnumber"@, "000000000001"@),
        write_in(strings, "manufacturer"@, "Nintendo Co., Ltd."@),
        write_in(strings, "product"@, "Pro Controller"@),
        make_dir(config),
        write_in(config, "MaxPower"@, "500"@),
        write_in(config, "bmAttributes"@, "0xa0"@),
    ]
}

/// The steps that add the HID function of one slot.
pub open spec fn function_steps(root: Seq<char>, slot: int) -> Seq<StepView> {
    let func = function_dir(root, slot);
    seq![
        make_dir(func),
        write_in(func, "protocol"@, "0"@),
        write_in(func, "subclass"@, "0"@),
        write_in(func, "report_length"@, "64"@),
        StepView::WriteBytes { path: joined(func, "report_desc"@), bytes: report_desc() },
        StepView::Link { target: func, link: joined(config_dir(root), function_name(slot)) },
    ]
}

/// The steps that add the HID functions of the first `n` slots.
pub open spec fn functions_steps(root: Seq<char>, n: int) -> Seq<StepView>
    decreases n,
{
    if n <= 0 {
        Seq::empty()
    } else {
        functions_steps(root, n - 1) + function_steps(root, n - 1)
    }
}

/// The steps that build the gadget with `n` HID functions.
pub open spec fn setup(root: Seq<char>, n: int) -> Seq<StepView> {
    device_steps(root) + functions_steps(root, n)
}

/// The step that binds the gadget to a USB device controller. An empty name
/// unbinds it.
pub open spec fn bind(root: Seq<char>, udc: Seq<char>) -> StepView {
    write_in(root, "UDC"@, udc)
}

/// The steps that take the gadget down: unbind it, then remove the
/// configuration, the functions, the strings and the root.
pub open spec fn teardown(root: Seq<char>) -> Seq<StepView> {
    seq![
        bind(root, ""@),
        StepView::RemoveTree { path: config_dir(root) },
        StepView::RemoveTree { path: joined(root, "functions"@) },
        StepView::RemoveTree { path: joined(root, "strings"@) },
        StepView::RemoveDir { path: root },
    ]
}

/// The device node of a slot.
pub open spec fn device_path(slot: int) -> Seq<char> {
    "/dev/hidg"@ + text::decimal(slot as nat)
}

/// Append a step that makes a directory.
fn push_dir(steps: &mut Vec<GadgetStep>, path: &str)
    ensures
        steps_view(final(steps)@) == steps_view(old(steps)@).push(make_dir(path@)),
{
    steps.push(GadgetStep::MakeDir { path: path.to_owned() });
    assert(steps_view(steps@) =~= steps_view(old(steps)@).push(make_dir(path@)));
}

/// Append a step that writes a file in a directory.
fn push_write(steps: &mut Vec<GadgetStep>, dir: &str, name: &str, text: &str)
    ensures
        steps_view(final(steps)@) == steps_view(old(steps)@).push(write_in(dir@, name@, text@)),
{
    steps.push(GadgetStep::WriteText { path: join(dir, name), text: text.to_owned() });
    assert(steps_view(steps@) =~= steps_view(old(steps)@).push(write_in(dir@, name@, text@)));
}

/// Append a step that needs no further preparation.
fn push_step(steps: &mut Vec<GadgetStep>, step: GadgetStep)
    ensures
        steps_view(final(steps)@) == steps_view(old(steps)@).push(step@),
{
    steps.push(step);
    assert(steps_view(steps@) =~= steps_view(old(steps)@).push(step@));
}

/// The report descriptor has no white space and is made of digit pairs.
proof fn lemma_desc_valid()
    ensures
        hex::trimmed(REPORT_DESC_HEX@) == REPORT_DESC_HEX@,
        hex::valid_hex(REPORT_DESC_HEX@),
        REPORT_DESC_HEX@.len() == 406,
{
    reveal_strlit("050115000904A1018530050105091901290A150025017501950A5500650081020509190B290E150025017501950481027501950281030B01000100A1000B300001000B310001000B320001000B35000100150027FFFF0000751095048102C00B39000100150025073500463B0165147504950181020509190F2912150025017501950481027508953481030600FF852109017508953F8103858109027508953F8103850109037508953F9183851009047508953F9183858009057508953F9183858209067508953F9183C0");
    assert forall|i: int| 0 <= i < 203 implies #[trigger] hex::pair_ok(REPORT_DESC_HEX@, i) by {
        assert(hex::is_hex(REPORT_DESC_HEX@[2 * i]));
        assert(hex::is_hex(REPORT_DESC_HEX@[2 * i + 1]));
    }
}

/// The gadget in configfs.
#[derive(Debug)]
pub struct GadgetManager {
    /// Its root directory.
    pub root: String,
}

impl GadgetManager {
    pub fn new() -> (manager: Self)
        ensures
            manager.root@ == joined(GADGET_BASE@, GADGET_NAME@),
    {
        GadgetManager { root: join(GADGET_BASE, GADGET_NAME) }
    }

    /// The steps that describe the device itself.
    fn device(&self) -> (steps: Vec<GadgetStep>)
        ensures
            steps_view(steps@) == device_steps(self.root@),
    {
        let root = self.root.as_str();
        let strings = join(root, "strings/0x409");
        let config = join(root, "configs/c.1");
        let mut steps: Vec<GadgetStep> = Vec::new();
        assert(steps_view(steps@) =~= Seq::<StepView>::empty());
        push_dir(&mut steps, root);
        push_write(&mut steps, root, "idVendor", "0x057e");
        push_write(&mut steps, root, "idProduct", "0x2009");
        push_write(&mut steps, root, "bcdUSB", "0x0200");
        push_write(&mut steps, root, "bDeviceClass", "0");
        push_dir(&mut steps, strings.as_str());
        push_write(&mut steps, strings.as_str(), "serialnumber", "000000000001");
        push_write(&mut steps, strings.as_str(), "manufacturer", "Nintendo Co., Ltd.");
        push_write(&mut steps, strings.as_str(), "product", "Pro Controller");
        push_dir(&mut steps, config.as_str());
        push_write(&mut steps, config.as_str(), "MaxPower", "500");
        push_write(&mut steps, config.as_str(), "bmAttributes", "0xa0");
        assert(steps_view(steps@) =~= device_steps(self.root@));
        steps
    }

    /// Append the steps that add the HID function of one slot.
    fn push_function(&self, steps: &mut Vec<GadgetStep>, slot: usize)
        ensures
            steps_view(final(steps)@) == steps_view(old(steps)@) + function_steps(
                self.root@,
                slot as int,
            ),
    {
        let ghost before = steps_view(steps@);
        let name = labelled("hid.usb", slot as u64);
        let functions = join(self.root.as_str(), "functions");
        let func = join(functions.as_str(), name.as_str());
        let config = join(self.root.as_str(), "configs/c.1");
        proof {
            lemma_desc_valid();
        }
        push_dir(steps, func.as_str());
        push_write(steps, func.as_str(), "protocol", "0");
        push_write(steps, func.as_str(), "subclass", "0");
        push_write(steps, func.as_str(), "report_length", "64");
        push_step(
            steps,
            GadgetStep::WriteBytes {
                path: join(func.as_str(), "report_desc"),
                bytes: hex_to_bytes(REPORT_DESC_HEX),
            },
        );
        let link = join(config.as_str(), name.as_str());
        push_step(steps, GadgetStep::Link { target: func, link });
        assert(steps_view(steps@) =~= before + function_steps(self.root@, slot as int));
    }

    /// The steps that build the gadget with `n` HID functions. Binding it to a
    /// controller comes after them.
    pub fn setup_steps(&self, n: usize) -> (steps: Vec<GadgetStep>)
        ensures
            steps_view(steps@) == setup(self.root@, n as int),
    {
        let mut steps = self.device();
        assert(steps_view(steps@) =~= setup(self.root@, 0));
        let mut i: usize = 0;
        while i < n
            invariant
                i <= n,
                steps_view(steps@) == setup(self.root@, i as int),
            decreases n - i,
        {
            self.push_function(&mut steps, i);
            i += 1;
            assert(steps_view(steps@) =~= setup(self.root@, i as int));
        }
        steps
    }

    /// The step that binds the gadget to the USB device controller `udc`.
    pub fn bind_step(&self, udc: &str) -> (step: GadgetStep)
        ensures
            step@ == bind(self.root@, udc@),
    {
        GadgetStep::WriteText { path: join(self.root.as_str(), "UDC"), text: udc.to_owned() }
    }

    /// The steps that take the gadget down. Later ones are worth trying even
    /// where an earlier one failed.
    pub fn teardown_steps(&self) -> (steps: Vec<GadgetStep>)
        ensures
            steps_view(steps@) == teardown(self.root@),
    {
        let root = self.root.as_str();
        let mut steps: Vec<GadgetStep> = Vec::new();
        assert(steps_view(steps@) =~= Seq::<StepView>::empty());
        push_step(&mut steps, self.bind_step(""));
        push_step(&mut steps, GadgetStep::RemoveTree { path: join(root, "configs/c.1") });
        push_step(&mut steps, GadgetStep::RemoveTree { path: join(root, "functions") });
        push_step(&mut steps, GadgetStep::RemoveTree { path: join(root, "strings") });
        push_step(&mut steps, GadgetStep::RemoveDir { path: root.to_owned() });
        assert(steps_view(steps@) =~= teardown(self.root@));
        steps
    }

    /// Path to a slot's HID device node.
    pub fn hidg_path(&self, slot: usize) -> (path: String)
        ensures
            path@ == device_path(slot as int),
    {
        labelled("/dev/hidg", slot as u64)
    }
}

/// `a` comes before `b`, or is equal to it, in the order of their characters.
pub open spec fn lex_le(a: Seq<char>, b: Seq<char>) -> bool
    decreases a.len(),
{
    if a.len() == 0 {
        true
    } else if b.len() == 0 {
        false
    } else {
        a[0] < b[0] || (a[0] == b[0] && lex_le(a.drop_first(), b.drop_first()))
    }
}

proof fn lemma_lex_total(a: Seq<char>, b: Seq<char>)
    ensures
        lex_le(a, b) || lex_le(b, a),
    decreases a.len(),
{
    if a.len() > 0 && b.len() > 0 {
        lemma_lex_total(a.drop_first(), b.drop_first());
    }
}

proof fn lemma_lex_transitive(a: Seq<char>, b: Seq<char>, c: Seq<char>)
    requires
        lex_le(a, b),
        lex_le(b, c),
    ensures
        lex_le(a, c),
    decreases a.len(),
{
    if a.len() > 0 && b.len() > 0 && c.len() > 0 && a[0] == b[0] && b[0] == c[0] {
        lemma_lex_transitive(a.drop_first(), b.drop_first(), c.drop_first());
    }
}

/// Compare two strings in the order of their characters.
fn str_le(a: &str, b: &str) -> (le: bool)
    ensures
        le == lex_le(a@, b@),
{
    let a_len: usize = a.unicode_len();
    let b_len: usize = b.unicode_len();
    assert(a@.subrange(0, a_len as int) =~= a@);
    assert(b@.subrange(0, b_len as int) =~= b@);
    let mut i: usize = 0;
    while i < a_len && i < b_len
        invariant
            i <= a_len,
            i <= b_len,
            a_len == a@.len(),
            b_len == b@.len(),
            lex_le(a@, b@) == lex_le(
                a@.subrange(i as int, a_len as int),
                b@.subrange(i as int, b_len as int),
            ),
        decreases a_len - i,
    {
        let x: char = a.get_char(i);
        let y: char = b.get_char(i);
        if x < y {
            return true;
        }
        if x > y {
            return false;
        }
        assert(a@.subrange(i as int, a_len as int).drop_first() =~= a@.subrange(
            i + 1,
            a_len as int,
        ));
        assert(b@.subrange(i as int, b_len as int).drop_first() =~= b@.subrange(
            i + 1,
            b_len as int,
        ));
        i += 1;
    }
    i == a_len
}

/// `udc` is the first of the non-empty names, in the order of their
/// characters.
pub open spec fn is_first_name(names: Seq<String>, udc: Seq<char>) -> bool {
    &&& udc.len() > 0
    &&& exists|i: int| 0 <= i < names.len() && (#[trigger] names[i])@ == udc
    &&& forall|i: int|
        0 <= i < names.len() && (#[trigger] names[i])@.len() > 0 ==> lex_le(udc, names[i]@)
}

/// Choose the USB device controller to bind to: the first of the non-empty
/// names.
pub fn pick_udc(names: &Vec<String>) -> (udc: Option<String>)
    ensures
        match udc {
            Some(name) => is_first_name(names@, name@),
            None => forall|i: int| 0 <= i < names@.len() ==> (#[trigger] names@[i])@.len() == 0,
        },
{
    let mut best: Option<usize> = None;
    let mut i: usize = 0;
    while i < names.len()
        invariant
            i <= names@.len(),
            match best {
                Some(k) => k < i && is_first_name(names@.take(i as int), names@[k as int]@),
                None => forall|j: int| 0 <= j < i ==> (#[trigger] names@[j])@.len() == 0,
            },
        decreases names@.len() - i,
    {
        let ghost seen = names@.take(i as int);
        let ghost next = names@.take(i + 1);
        assert(next[i as int] == names@[i as int]);
        assert(forall|j: int| 0 <= j < i ==> #[trigger] seen[j] == names@[j]);
        assert(forall|j: int| 0 <= j < i ==> #[trigger] next[j] == seen[j]);
        if !names[i].as_str().is_empty() {
            best = match best {
                None => Some(i),
                Some(k) => if str_le(names[k].as_str(), names[i].as_str()) {
                    assert(next[k as int] == names@[k as int]);
                    Some(k)
                } else {
                    proof {
                        let chosen = names@[i as int]@;
                        lemma_lex_total(names@[k as int]@, chosen);
                        assert forall|j: int|
                            0 <= j < next.len() && (#[trigger] next[j])@.len() > 0 implies lex_le(
                            chosen,
                            next[j]@,
                        ) by {
                            if j < i {
                                assert(seen[j] == next[j]);
                                lemma_lex_transitive(chosen, names@[k as int]@, next[j]@);
                            } else {
                                lemma_lex_total(chosen, chosen);
                            }
                        }
                    }
                    Some(i)
                },
            };
            proof {
                lemma_lex_total(names@[i as int]@, names@[i as int]@);
            }
        } else if let Some(k) = best {
            assert(next[k as int] == names@[k as int]);
        }
        i += 1;
    }
    assert(names@.take(names@.len() as int) =~= names@);
    match best {
        Some(k) => Some(names[k].clone()),
        None => None,
    }
}

/// Different slots have different functions, linked under different names,
/// and different device nodes.
pub proof fn law_slots_apart(root: Seq<char>, slot: nat, other: nat)
    requires
        slot != other,
    ensures
        function_dir(root, slot as int) != function_dir(root, other as int),
        function_name(slot as int) != function_name(other as int),
        device_path(slot as int) != device_path(other as int),
{
    lemma_labelled_injective("hid.usb"@, slot, other);
    lemma_labelled_injective("/dev/hidg"@, slot, other);
    let dir = joined(root, "functions"@) + "/"@;
    let a = function_dir(root, slot as int);
    let b = function_dir(root, other as int);
    if a == b {
        assert(a.subrange(dir.len() as int, a.len() as int) =~= function_name(slot as int));
        assert(b.subrange(dir.len() as int, b.len() as int) =~= function_name(other as int));
    }
}

proof fn lemma_labelled_injective(before: Seq<char>, n: nat, m: nat)
    requires
        n != m,
    ensures
        before + text::decimal(n) != before + text::decimal(m),
{
    let a = before + text::decimal(n);
    let b = before + text::decimal(m);
    if a == b {
        assert(a.subrange(before.len() as int, a.len() as int) =~= text::decimal(n));
        assert(b.subrange(before.len() as int, b.len() as int) =~= text::decimal(m));
        text::law_decimal_injective(n, m);
    }
}

/// A gadget with more slots is built by the same steps and then more: the
/// slots do not depend on how many there are.
pub proof fn law_setup_grows(root: Seq<char>, n: int, more: int)
    requires
        0 <= n <= more,
    ensures
        setup(root, n).len() == 12 + 6 * n,
        setup(root, n) == setup(root, more).take(12 + 6 * n),
    decreases more,
{
    lemma_functions_len(root, n);
    lemma_functions_len(root, more);
    if n < more {
        law_setup_grows(root, n, more - 1);
        lemma_functions_len(root, more - 1);
        assert(setup(root, more).take(12 + 6 * n) =~= setup(root, more - 1).take(12 + 6 * n));
    } else {
        assert(setup(root, n).take(12 + 6 * n) =~= setup(root, n));
    }
}

proof fn lemma_functions_len(root: Seq<char>, n: int)
    requires
        0 <= n,
    ensures
        functions_steps(root, n).len() == 6 * n,
    decreases n,
{
    if n > 0 {
        lemma_functions_len(root, n - 1);
    }
}

/// `path` is `dir` or lies somewhere below it.
pub open spec fn under(path: Seq<char>, dir: Seq<char>) -> bool {
    path == dir || (dir + "/"@).is_prefix_of(path)
}

/// Taking the gadget down removes the directory or link that `step` makes.
pub open spec fn is_removed(root: Seq<char>, step: StepView) -> bool {
    match step {
        StepView::MakeDir { path } => {
            ||| path == root
            ||| under(path, config_dir(root))
            ||| under(path, joined(root, "functions"@))
            ||| under(path, joined(root, "strings"@))
        },
        StepView::Link { link, .. } => under(link, config_dir(root)),
        _ => true,
    }
}

/// Whatever directory or link building the gadget makes, taking it down
/// removes.
pub proof fn law_teardown_covers_setup(root: Seq<char>, n: int, i: int)
    requires
        0 <= i < setup(root, n).len(),
    ensures
        is_removed(root, setup(root, n)[i]),
{
    if i < 12 {
        reveal_strlit("strings/0x409");
        reveal_strlit("strings");
        reveal_strlit("/");
        let strings = joined(root, "strings/0x409"@);
        assert((joined(root, "strings"@) + "/"@).is_prefix_of(strings)) by {
            assert(strings.subrange(0, (root.len() + 9) as int) =~= joined(root, "strings"@) + "/"@);
        }
    } else {
        lemma_functions_removed(root, n, i - 12);
        assert(setup(root, n)[i] == functions_steps(root, n)[i - 12]);
    }
}

proof fn lemma_functions_removed(root: Seq<char>, n: int, i: int)
    requires
        0 <= i < functions_steps(root, n).len(),
    ensures
        is_removed(root, functions_steps(root, n)[i]),
    decreases n,
{
    let before = functions_steps(root, n - 1);
    if i < before.len() {
        lemma_functions_removed(root, n - 1, i);
        assert(functions_steps(root, n)[i] == before[i]);
    } else {
        let name = function_name(n - 1);
        lemma_joined_under(joined(root, "functions"@), name);
        lemma_joined_under(config_dir(root), name);
        assert(functions_steps(root, n)[i] == function_steps(root, n - 1)[i - before.len()]);
    }
}

proof fn lemma_joined_under(dir: Seq<char>, name: Seq<char>)
    ensures
        under(joined(dir, name), dir),
{
    let head = dir + "/"@;
    assert(joined(dir, name).subrange(0, head.len() as int) =~= head);
}

/// What building a gadget writes for the device: a Pro Controller of Nintendo,
/// with one serial number, drawing 500 mA from the bus.
pub proof fn law_device_files(root: Seq<char>, n: int)
    requires
        n >= 0,
    ensures
        ({
            let steps = setup(root, n);
            &&& steps[0] == (StepView::MakeDir { path: root })
            &&& steps[1] == (StepView::WriteText { path: root + "/idVendor"@, text: "0x057e"@ })
            &&& steps[2] == (StepView::WriteText { path: root + "/idProduct"@, text: "0x2009"@ })
            &&& steps[3] == (StepView::WriteText { path: root + "/bcdUSB"@, text: "0x0200"@ })
            &&& steps[4] == (StepView::WriteText { path: root + "/bDeviceClass"@, text: "0"@ })
            &&& steps[5] == (StepView::MakeDir { path: root + "/strings/0x409"@ })
            &&& steps[6] == (StepView::WriteText {
                path: root + "/strings/0x409/serialnumber"@,
                text: "000000000001"@,
            })
            &&& steps[7] == (StepView::WriteText {
                path: root + "/strings/0x409/manufacturer"@,
                text: "Nintendo Co., Ltd."@,
            })
            &&& steps[8] == (StepView::WriteText {
                path: root + "/strings/0x409/product"@,
                text: "Pro Controller"@,
            })
            &&& steps[9] == (StepView::MakeDir { path: root + "/configs/c.1"@ })
            &&& steps[10] == (StepView::WriteText {
                path: root + "/configs/c.1/MaxPower"@,
                text: "500"@,
            })
            &&& steps[11] == (StepView::WriteText {
                path: root + "/configs/c.1/bmAttributes"@,
                text: "0xa0"@,
            })
        }),
{
    let strings = joined(root, "strings/0x409"@);
    let config = config_dir(root);
    assert forall|i: int| 0 <= i < 12 implies #[trigger] setup(root, n)[i] == device_steps(
        root,
    )[i] by {}
    reveal_strlit("/");
    assert(strings =~= root + "/strings/0x409"@) by {
        reveal_strlit("strings/0x409");
        reveal_strlit("/strings/0x409");
    }
    assert(config =~= root + "/configs/c.1"@) by {
        reveal_strlit("configs/c.1");
        reveal_strlit("/configs/c.1");
    }
    assert(joined(root, "idVendor"@) =~= root + "/idVendor"@) by {
        reveal_strlit("idVendor");
        reveal_strlit("/idVendor");
    }
    assert(joined(root, "idProduct"@) =~= root + "/idProduct"@) by {
        reveal_strlit("idProduct");
        reveal_strlit("/idProduct");
    }
    assert(joined(root, "bcdUSB"@) =~= root + "/bcdUSB"@) by {
        reveal_strlit("bcdUSB");
        reveal_strlit("/bcdUSB");
    }
    assert(joined(root, "bDeviceClass"@) =~= root + "/bDeviceClass"@) by {
        reveal_strlit("bDeviceClass");
        reveal_strlit("/bDeviceClass");
    }
    assert(joined(strings, "serialnumber"@) =~= root + "/strings/0x409/serialnumber"@) by {
        reveal_strlit("/strings/0x409");
        reveal_strlit("serialnumber");
        reveal_strlit("/strings/0x409/serialnumber");
    }
    assert(joined(strings, "manufacturer"@) =~= root + "/strings/0x409/manufacturer"@) by {
        reveal_strlit("/strings/0x409");
        reveal_strlit("manufacturer");
        reveal_strlit("/strings/0x409/manufacturer");
    }
    assert(joined(strings, "product"@) =~= root + "/strings/0x409/product"@) by {
        reveal_strlit("/strings/0x409");
        reveal_strlit("product");
        reveal_strlit("/strings/0x409/product");
    }
    assert(joined(config, "MaxPower"@) =~= root + "/configs/c.1/MaxPower"@) by {
        reveal_strlit("/configs/c.1");
        reveal_strlit("MaxPower");
        reveal_strlit("/configs/c.1/MaxPower");
    }
    assert(joined(config, "bmAttributes"@) =~= root + "/configs/c.1/bmAttributes"@) by {
        reveal_strlit("/configs/c.1");
        reveal_strlit("bmAttributes");
        reveal_strlit("/configs/c.1/bmAttributes");
    }
}

/// The bytes of the HID report descriptor.
pub proof fn law_report_descriptor()
    ensures
        report_desc() == seq![
            0x05u8, 0x01, 0x15, 0x00, 0x09, 0x04, 0xa1, 0x01, 0x85, 0x30, 0x05, 0x01,
            0x05, 0x09, 0x19, 0x01, 0x29, 0x0a, 0x15, 0x00, 0x25, 0x01, 0x75, 0x01, 0x95, 0x0a,
            0x55, 0x00, 0x65, 0x00, 0x81, 0x02, 0x05, 0x09, 0x19, 0x0b, 0x29, 0x0e, 0x15, 0x00,
            0x25, 0x01, 0x75, 0x01, 0x95, 0x04, 0x81, 0x02, 0x75, 0x01, 0x95, 0x02, 0x81, 0x03,
            0x0b, 0x01, 0x00, 0x01, 0x00, 0xa1, 0x00, 0x0b, 0x30, 0x00, 0x01, 0x00,
            0x0b, 0x31, 0x00, 0x01, 0x00, 0x0b, 0x32, 0x00, 0x01, 0x00,
            0x0b, 0x35, 0x00, 0x01, 0x00, 0x15, 0x00, 0x27, 0xff, 0xff, 0x00, 0x00, 0x75, 0x10,
            0x95, 0x04, 0x81, 0x02, 0xc0, 0x0b, 0x39, 0x00, 0x01, 0x00, 0x15, 0x00, 0x25, 0x07,
            0x35, 0x00, 0x46, 0x3b, 0x01, 0x65, 0x14, 0x75, 0x04, 0x95, 0x01, 0x81, 0x02,
            0x05, 0x09, 0x19, 0x0f, 0x29, 0x12, 0x15, 0x00, 0x25, 0x01, 0x75, 0x01, 0x95, 0x04,
            0x81, 0x02, 0x75, 0x08, 0x95, 0x34, 0x81, 0x03, 0x06, 0x00, 0xff, 0x85, 0x21,
            0x09, 0x01, 0x75, 0x08, 0x95, 0x3f, 0x81, 0x03, 0x85, 0x81, 0x09, 0x02, 0x75, 0x08,
            0x95, 0x3f, 0x81, 0x03, 0x85, 0x01, 0x09, 0x03, 0x75, 0x08, 0x95, 0x3f, 0x91, 0x83,
            0x85, 0x10, 0x09, 0x04, 0x75, 0x08, 0x95, 0x3f, 0x91, 0x83, 0x85, 0x80, 0x09, 0x05,
            0x75, 0x08, 0x95, 0x3f, 0x91, 0x83, 0x85, 0x82, 0x09, 0x06, 0x75, 0x08, 0x95, 0x3f,
            0x91, 0x83, 0xc0,
        ],
{
    reveal_strlit("050115000904A1018530050105091901290A150025017501950A5500650081020509190B290E150025017501950481027501950281030B01000100A1000B300001000B310001000B320001000B35000100150027FFFF0000751095048102C00B39000100150025073500463B0165147504950181020509190F2912150025017501950481027508953481030600FF852109017508953F8103858109027508953F8103850109037508953F9183851009047508953F9183858009057508953F9183858209067508953F9183C0");
    assert(report_desc().len() == 203);
}

/// A slot's function is called after its number, and so is its device node.
pub proof fn law_slot_names(slot: nat)
    ensures
        function_name(slot as int).take(7) == "hid.usb"@,
        text::parsed(function_name(slot as int).skip(7), slot) == Some(slot),
        device_path(slot as int).take(9) == "/dev/hidg"@,
        text::parsed(device_path(slot as int).skip(9), slot) == Some(slot),
{
    reveal_strlit("hid.usb");
    reveal_strlit("/dev/hidg");
    text::law_decimal_round_trip(slot, slot);
    assert(function_name(slot as int).take(7) =~= "hid.usb"@);
    assert(function_name(slot as int).skip(7) =~= text::decimal(slot));
    assert(device_path(slot as int).take(9) =~= "/dev/hidg"@);
    assert(device_path(slot as int).skip(9) =~= text::decimal(slot));
}

/// Where the steps of a slot stand among those that build the gadget.
proof fn lemma_function_place(root: Seq<char>, n: int, slot: int, j: int)
    requires
        0 <= slot < n,
        0 <= j < 6,
    ensures
        functions_steps(root, n).len() == 6 * n,
        functions_steps(root, n)[6 * slot + j] == function_steps(root, slot)[j],
    decreases n,
{
    lemma_functions_len(root, n);
    lemma_functions_len(root, n - 1);
    if slot < n - 1 {
        lemma_function_place(root, n - 1, slot, j);
    }
}

/// What building a gadget does for each slot, in order: a directory of its own
/// for the function, its protocol, the length of its reports and their
/// descriptor, and a link to it from the configuration.
pub proof fn law_function_files(root: Seq<char>, n: int, slot: int)
    requires
        0 <= slot < n,
    ensures
        ({
            let steps = setup(root, n);
            let at = 12 + 6 * slot;
            let name = "hid.usb"@ + text::decimal(slot as nat);
            let dir = root + "/functions/"@ + name;
            &&& steps.len() == 12 + 6 * n
            &&& steps[at] == (StepView::MakeDir { path: dir })
            &&& steps[at + 1] == (StepView::WriteText { path: dir + "/protocol"@, text: "0"@ })
            &&& steps[at + 2] == (StepView::WriteText { path: dir + "/subclass"@, text: "0"@ })
            &&& steps[at + 3] == (StepView::WriteText {
                path: dir + "/report_length"@,
                text: "64"@,
            })
            &&& steps[at + 4] == (StepView::WriteBytes {
                path: dir + "/report_desc"@,
                bytes: report_desc(),
            })
            &&& steps[at + 5] == (StepView::Link {
                target: dir,
                link: root + "/configs/c.1/"@ + name,
            })
        }),
{
    let name = "hid.usb"@ + text::decimal(slot as nat);
    let dir = root + "/functions/"@ + name;
    let parts = functions_steps(root, n);
    lemma_functions_len(root, n);
    assert forall|j: int| 0 <= j < 6 implies #[trigger] setup(root, n)[12 + 6 * slot + j]
        == function_steps(root, slot)[j] by {
        lemma_function_place(root, n, slot, j);
        assert(setup(root, n)[12 + 6 * slot + j] == parts[6 * slot + j]);
    }
    assert(setup(root, n)[12 + 6 * slot + 0] == function_steps(root, slot)[0]);
    assert(setup(root, n)[12 + 6 * slot + 1] == function_steps(root, slot)[1]);
    assert(setup(root, n)[12 + 6 * slot + 2] == function_steps(root, slot)[2]);
    assert(setup(root, n)[12 + 6 * slot + 3] == function_steps(root, slot)[3]);
    assert(setup(root, n)[12 + 6 * slot + 4] == function_steps(root, slot)[4]);
    assert(setup(root, n)[12 + 6 * slot + 5] == function_steps(root, slot)[5]);
    reveal_strlit("/");
    assert(function_dir(root, slot) =~= dir) by {
        reveal_strlit("functions");
        reveal_strlit("/functions/");
    }
    assert(joined(config_dir(root), name) =~= root + "/configs/c.1/"@ + name) by {
        reveal_strlit("configs/c.1");
        reveal_strlit("/configs/c.1/");
    }
    assert(joined(dir, "protocol"@) =~= dir + "/protocol"@) by {
        reveal_strlit("protocol");
        reveal_strlit("/protocol");
    }
    assert(joined(dir, "subclass"@) =~= dir + "/subclass"@) by {
        reveal_strlit("subclass");
        reveal_strlit("/subclass");
    }
    assert(joined(dir, "report_length"@) =~= dir + "/report_length"@) by {
        reveal_strlit("report_length");
        reveal_strlit("/report_length");
    }
    assert(joined(dir, "report_desc"@) =~= dir + "/report_desc"@) by {
        reveal_strlit("report_desc");
        reveal_strlit("/report_desc");
    }
}

/// Binding writes the controller's name to the gadget's `UDC` file. Taking the
/// gadget down empties that file first, then removes the configuration, the
/// functions and the strings, and the root at last.
pub proof fn law_bind_and_teardown(root: Seq<char>, udc: Seq<char>)
    ensures
        bind(root, udc) == (StepView::WriteText { path: root + "/UDC"@, text: udc }),
        teardown(root).len() == 5,
        teardown(root)[0] == (StepView::WriteText { path: root + "/UDC"@, text: Seq::empty() }),
        teardown(root)[1] == (StepView::RemoveTree { path: root + "/configs/c.1"@ }),
        teardown(root)[2] == (StepView::RemoveTree { path: root + "/functions"@ }),
        teardown(root)[3] == (StepView::RemoveTree { path: root + "/strings"@ }),
        teardown(root)[4] == (StepView::RemoveDir { path: root }),
{
    reveal_strlit("/");
    reveal_strlit("");
    assert(""@ =~= Seq::<char>::empty());
    assert(joined(root, "UDC"@) =~= root + "/UDC"@) by {
        reveal_strlit("UDC");
        reveal_strlit("/UDC");
    }
    assert(config_dir(root) =~= root + "/configs/c.1"@) by {
        reveal_strlit("configs/c.1");
        reveal_strlit("/configs/c.1");
    }
    assert(joined(root, "functions"@) =~= root + "/functions"@) by {
        reveal_strlit("functions");
        reveal_strlit("/functions");
    }
    assert(joined(root, "strings"@) =~= root + "/strings"@) by {
        reveal_strlit("strings");
        reveal_strlit("/strings");
    }
}

/// The gadget lies in configfs under its own name.
pub proof fn law_gadget_root()
    ensures
        joined(GADGET_BASE@, GADGET_NAME@) == "/sys/kernel/config/usb_gadget/switchbridge"@,
{
    reveal_strlit("/");
    reveal_strlit("/sys/kernel/config/usb_gadget");
    reveal_strlit("switchbridge");
    reveal_strlit("/sys/kernel/config/usb_gadget/switchbridge");
    assert(joined(GADGET_BASE@, GADGET_NAME@)
        =~= "/sys/kernel/config/usb_gadget/switchbridge"@);
}

/// How names are ordered: by the first character in which they differ, and a
/// name comes before every longer one that starts with it.
pub proof fn law_name_order(common: Seq<char>, a: Seq<char>, b: Seq<char>)
    requires
        a.len() == 0 || b.len() == 0 || a[0] != b[0],
    ensures
        lex_le(common + a, common + b) <==> a.len() == 0 || (b.len() > 0 && (a[0] as int)
            < b[0] as int),
    decreases common.len(),
{
    if common.len() == 0 {
        assert(common + a =~= a);
        assert(common + b =~= b);
    } else {
        let rest = common.drop_first();
        law_name_order(rest, a, b);
        assert((common + a).drop_first() =~= rest + a);
        assert((common + b).drop_first() =~= rest + b);
    }
}

/// The controller that is picked has a name on the list, and every other name
/// on it comes later; there is at most one such name.
pub proof fn law_first_name(names: Seq<String>, udc: Seq<char>, other: Seq<char>)
    requires
        is_first_name(names, udc),
    ensures
        udc.len() > 0,
        exists|i: int| 0 <= i < names.len() && (#[trigger] names[i])@ == udc,
        forall|i: int|
            0 <= i < names.len() && (#[trigger] names[i])@.len() > 0 ==> lex_le(udc, names[i]@),
        is_first_name(names, other) ==> other == udc,
{
    if is_first_name(names, other) {
        lemma_lex_antisymmetric(udc, other);
    }
}

proof fn lemma_lex_antisymmetric(a: Seq<char>, b: Seq<char>)
    requires
        lex_le(a, b),
        lex_le(b, a),
    ensures
        a == b,
    decreases a.len(),
{
    if a.len() > 0 && b.len() > 0 {
        lemma_lex_antisymmetric(a.drop_first(), b.drop_first());
        assert(a =~= seq![a[0]] + a.drop_first());
        assert(b =~= seq![b[0]] + b.drop_first());
    } else {
        assert(a =~= b);
    }
}

/// The view of a run of steps keeps their order and loses nothing: each step
/// stands for itself, with its paths and what it writes.
pub proof fn law_steps_view(steps: Seq<GadgetStep>, i: int)
    requires
        0 <= i < steps.len(),
    ensures
        steps_view(steps).len() == steps.len(),
        steps[i] matches GadgetStep::MakeDir { path } ==> steps_view(steps)[i]
            == (StepView::MakeDir { path: path@ }),
        steps[i] matches GadgetStep::WriteText { path, text } ==> steps_view(steps)[i]
            == (StepView::WriteText { path: path@, text: text@ }),
        steps[i] matches GadgetStep::WriteBytes { path, bytes } ==> steps_view(steps)[i]
            == (StepView::WriteBytes { path: path@, bytes: bytes@ }),
        steps[i] matches GadgetStep::Link { target, link } ==> steps_view(steps)[i]
            == (StepView::Link { target: target@, link: link@ }),
        steps[i] matches GadgetStep::RemoveTree { path } ==> steps_view(steps)[i]
            == (StepView::RemoveTree { path: path@ }),
        steps[i] matches GadgetStep::RemoveDir { path } ==> steps_view(steps)[i]
            == (StepView::RemoveDir { path: path@ }),
{
}

} // verus!
