//! The registry emitter: a pure function from the collected control
//! list and a struct name to the generated registry text. The exact
//! text is pinned, entry by entry, by the spec functions below, so a
//! run on a given list can produce exactly one output.

use vstd::prelude::*;
use crate::collector::{collected_controls, UiCollector, UiEvent};
use crate::controls::{ControlDescriptor, ControlView, views_of};
use crate::ident::{is_legal_ident, is_legal_ident_exec, lower_label, lower_text, upper_label, upper_text};
use crate::text::{nat_text, tenths_text, tenths_to_text, u64_text};

verus! {

/// One field declaration, without its separator: the host-visible
/// identifier attribute carrying the label verbatim, then the
/// lower-cased field name.
pub open spec fn field_decl_text(label: Seq<char>) -> Seq<char> {
    "    #[id = \""@ + label + "\"]\n    "@ + lower_text(label) + ": FloatParam"@
}

/// One default-value entry, without its separator: the field seeded
/// with the label as display name, the default, and the linear range,
/// each number with one decimal place.
pub open spec fn default_entry_text(
    label: Seq<char>,
    initial_tenths: int,
    min_tenths: int,
    max_tenths: int,
) -> Seq<char> {
    "            "@ + lower_text(label) + ": FloatParam::new(\""@ + label + "\", "@ + tenths_text(
        initial_tenths,
    ) + ", FloatRange::Linear { min: "@ + tenths_text(min_tenths) + ", max: "@ + tenths_text(
        max_tenths,
    ) + "})"@
}

/// One index-constant line, newline included.
pub open spec fn index_const_text(label: Seq<char>, param_index: int) -> Seq<char> {
    "pub const "@ + upper_text(label) + "_PI: ParamIndex = ParamIndex("@ + nat_text(
        param_index as nat,
    ) + ");\n"@
}

/// Entries joined with a separator on every entry except the last.
pub open spec fn join_entries(parts: Seq<Seq<char>>, sep: Seq<char>) -> Seq<char>
    decreases parts.len(),
{
    if parts.len() == 0 {
        Seq::empty()
    } else if parts.len() == 1 {
        parts[0]
    } else {
        join_entries(parts.drop_last(), sep) + sep + parts.last()
    }
}

/// The field declarations of the whole registry, in collection order.
pub open spec fn fields_block(ctrls: Seq<ControlView>) -> Seq<char> {
    join_entries(ctrls.map_values(|c: ControlView| field_decl_text(c.label)), ",\n"@)
}

/// The default-value entries of the whole registry, in collection
/// order.
pub open spec fn defaults_block(ctrls: Seq<ControlView>) -> Seq<char> {
    join_entries(
        ctrls.map_values(
            |c: ControlView| default_entry_text(
                c.label,
                c.initial_tenths,
                c.min_tenths,
                c.max_tenths,
            ),
        ),
        ",\n"@,
    )
}

/// The index constants of the whole registry, in collection order.
pub open spec fn consts_block(ctrls: Seq<ControlView>) -> Seq<char>
    decreases ctrls.len(),
{
    if ctrls.len() == 0 {
        Seq::empty()
    } else {
        consts_block(ctrls.drop_last()) + index_const_text(
            ctrls.last().label,
            ctrls.last().param_index,
        )
    }
}

/// The whole generated registry text for a collected control list and
/// a struct name.
pub open spec fn registry_text(ctrls: Seq<ControlView>, name: Seq<char>) -> Seq<char> {
    "use faust_types::ParamIndex;\n#[derive(Params)]\nstruct "@ + name + " {\n// nr of params: "@
        + nat_text(ctrls.len()) + "\n"@ + fields_block(ctrls) + "\n}\n\nimpl Default for "@ + name
        + " {\n    fn default() -> Self {\n        Self {\n"@ + defaults_block(ctrls)
        + "\n        }\n    }\n}\n\n"@ + consts_block(ctrls)
}

/// The lower-cased field name of one control.
pub open spec fn ident_text(label: Seq<char>) -> Seq<char> {
    lower_text(label)
}

/// Every control's lower-cased label is a legal field name.
pub open spec fn idents_legal(ctrls: Seq<ControlView>) -> bool {
    forall|i: int| 0 <= i < ctrls.len() ==> is_legal_ident(ident_text(#[trigger] ctrls[i].label))
}

/// No two controls lower-case to the same field name.
pub open spec fn collision_free(ctrls: Seq<ControlView>) -> bool {
    forall|i: int, j: int|
        0 <= i < j < ctrls.len() ==> ident_text(#[trigger] ctrls[i].label) != ident_text(
            #[trigger] ctrls[j].label,
        )
}

/// A control list the emitter accepts: all derived field names legal
/// and pairwise distinct.
pub open spec fn registry_ok(ctrls: Seq<ControlView>) -> bool {
    idents_legal(ctrls) && collision_free(ctrls)
}

/// Why an emission was refused. No output text exists for a refused
/// registry: the failure comes before anything is written.
#[derive(Debug, PartialEq, Eq, Structural)]
pub enum EmitError {
    /// The control at `index` has a label whose lower-casing is not a
    /// legal field name in the generated text.
    IllegalIdentifier { index: usize },
    /// The controls at `first` and `second` have labels that
    /// lower-case to the same field name.
    IdentifierCollision { first: usize, second: usize },
}

/// Generation is deterministic: any two outputs rendered from the same
/// collected control list and the same struct name are byte-identical.
pub proof fn lemma_generation_deterministic(
    ctrls: Seq<ControlView>,
    name: Seq<char>,
    out1: Seq<char>,
    out2: Seq<char>,
)
    requires
        out1 == registry_text(ctrls, name),
        out2 == registry_text(ctrls, name),
    ensures
        out1 == out2,
{
}

/// Order preservation: the field-declaration entries and the
/// default-value entries are positionally aligned with each other and
/// with collection order — the entry at each position of either block
/// is rendered from the control at that same position.
pub proof fn lemma_order_preservation(ctrls: Seq<ControlView>)
    ensures
        ctrls.map_values(|c: ControlView| field_decl_text(c.label)).len() == ctrls.len(),
        ctrls.map_values(
            |c: ControlView| default_entry_text(
                c.label,
                c.initial_tenths,
                c.min_tenths,
                c.max_tenths,
            ),
        ).len() == ctrls.len(),
        forall|i: int|
            0 <= i < ctrls.len() ==> ctrls.map_values(|c: ControlView| field_decl_text(c.label))[i]
                == field_decl_text(#[trigger] ctrls[i].label),
        forall|i: int|
            0 <= i < ctrls.len() ==> ctrls.map_values(
                |c: ControlView| default_entry_text(
                    c.label,
                    c.initial_tenths,
                    c.min_tenths,
                    c.max_tenths,
                ),
            )[i] == default_entry_text(
                #[trigger] ctrls[i].label,
                ctrls[i].initial_tenths,
                ctrls[i].min_tenths,
                ctrls[i].max_tenths,
            ),
{
}

/// Joining one more entry appends a separator first unless the entry
/// is the only one.
proof fn lemma_join_push(parts: Seq<Seq<char>>, sep: Seq<char>, x: Seq<char>)
    ensures
        join_entries(parts.push(x), sep) == if parts.len() == 0 {
            x
        } else {
            join_entries(parts, sep) + sep + x
        },
{
    let q = parts.push(x);
    assert(q.drop_last() =~= parts);
    assert(q.last() == x);
    if parts.len() == 0 {
        assert(join_entries(q, sep) == q[0]);
    }
}

/// Renders one field declaration.
fn render_field_decl(label: &str, ident: &str) -> (r: String)
    requires
        ident@ == lower_text(label@),
    ensures
        r@ == field_decl_text(label@),
{
    let mut s = String::new();
    s.append("    #[id = \"");
    s.append(label);
    s.append("\"]\n    ");
    s.append(ident);
    s.append(": FloatParam");
    proof {
        assert(s@ =~= field_decl_text(label@));
    }
    s
}

/// Renders one default-value entry.
fn render_default_entry(
    label: &str,
    ident: &str,
    initial_tenths: i64,
    min_tenths: i64,
    max_tenths: i64,
) -> (r: String)
    requires
        ident@ == lower_text(label@),
    ensures
        r@ == default_entry_text(label@, initial_tenths as int, min_tenths as int, max_tenths as int),
{
    let mut s = String::new();
    s.append("            ");
    s.append(ident);
    s.append(": FloatParam::new(\"");
    s.append(label);
    s.append("\", ");
    let t0 = tenths_to_text(initial_tenths);
    s.append(t0.as_str());
    s.append(", FloatRange::Linear { min: ");
    let t1 = tenths_to_text(min_tenths);
    s.append(t1.as_str());
    s.append(", max: ");
    let t2 = tenths_to_text(max_tenths);
    s.append(t2.as_str());
    s.append("})");
    proof {
        assert(s@ =~= default_entry_text(
            label@,
            initial_tenths as int,
            min_tenths as int,
            max_tenths as int,
        ));
    }
    s
}

/// Renders one index-constant line.
fn render_index_const(label: &str, param_index: u32) -> (r: String)
    ensures
        r@ == index_const_text(label@, param_index as int),
{
    let mut s = String::new();
    s.append("pub const ");
    let upper = upper_label(label);
    s.append(upper.as_str());
    s.append("_PI: ParamIndex = ParamIndex(");
    let pi = u64_text(param_index as u64);
    s.append(pi.as_str());
    s.append(");\n");
    proof {
        assert(s@ =~= index_const_text(label@, param_index as int));
    }
    s
}

/// Renders the field-declaration block, entries joined with a
/// separator on every entry except the last.
fn render_fields(controls: &Vec<ControlDescriptor>, idents: &Vec<String>) -> (r: String)
    requires
        idents@.len() == controls@.len(),
        forall|i: int|
            0 <= i < controls@.len() ==> #[trigger] idents@[i]@ == lower_text(
                controls@[i].label@,
            ),
    ensures
        r@ == fields_block(views_of(controls@)),
{
    let ghost views = views_of(controls@);
    let n = controls.len();
    let mut s = String::new();
    let mut k: usize = 0;
    proof {
        assert(views.subrange(0, 0).map_values(|c: ControlView| field_decl_text(c.label)) =~= Seq::<
            Seq<char>,
        >::empty());
        assert(s@ =~= fields_block(views.subrange(0, 0)));
    }
    while k < n
        invariant
            k <= n,
            n == controls@.len(),
            idents@.len() == controls@.len(),
            views == views_of(controls@),
            forall|i: int|
                0 <= i < controls@.len() ==> #[trigger] idents@[i]@ == lower_text(
                    controls@[i].label@,
                ),
            s@ == fields_block(views.subrange(0, k as int)),
        decreases n - k,
    {
        if k > 0 {
            s.append(",\n");
        }
        let entry = render_field_decl(controls[k].label.as_str(), idents[k].as_str());
        s.append(entry.as_str());
        k = k + 1;
        proof {
            let prev = views.subrange(0, k - 1);
            let now = views.subrange(0, k as int);
            let fd = |c: ControlView| field_decl_text(c.label);
            assert(now =~= prev.push(views[k - 1]));
            assert(now.map_values(fd) =~= prev.map_values(fd).push(field_decl_text(
                views[k - 1].label,
            )));
            lemma_join_push(prev.map_values(fd), ",\n"@, field_decl_text(views[k - 1].label));
            assert(views[k - 1].label == controls@[k - 1].label@);
            assert(s@ =~= fields_block(now));
        }
    }
    proof {
        assert(views.subrange(0, n as int) =~= views);
    }
    s
}

/// Renders the default-value block, entries joined with a separator on
/// every entry except the last.
fn render_defaults(controls: &Vec<ControlDescriptor>, idents: &Vec<String>) -> (r: String)
    requires
        idents@.len() == controls@.len(),
        forall|i: int|
            0 <= i < controls@.len() ==> #[trigger] idents@[i]@ == lower_text(
                controls@[i].label@,
            ),
    ensures
        r@ == defaults_block(views_of(controls@)),
{
    let ghost views = views_of(controls@);
    let n = controls.len();
    let mut s = String::new();
    let mut k: usize = 0;
    proof {
        assert(views.subrange(0, 0).map_values(
            |c: ControlView| default_entry_text(
                c.label,
                c.initial_tenths,
                c.min_tenths,
                c.max_tenths,
            ),
        ) =~= Seq::<Seq<char>>::empty());
        assert(s@ =~= defaults_block(views.subrange(0, 0)));
    }
    while k < n
        invariant
            k <= n,
            n == controls@.len(),
            idents@.len() == controls@.len(),
            views == views_of(controls@),
            forall|i: int|
                0 <= i < controls@.len() ==> #[trigger] idents@[i]@ == lower_text(
                    controls@[i].label@,
                ),
            s@ == defaults_block(views.subrange(0, k as int)),
        decreases n - k,
    {
        if k > 0 {
            s.append(",\n");
        }
        let c = &controls[k];
        let entry = render_default_entry(
            c.label.as_str(),
            idents[k].as_str(),
            c.initial_tenths,
            c.min_tenths,
            c.max_tenths,
        );
        s.append(entry.as_str());
        k = k + 1;
        proof {
            let prev = views.subrange(0, k - 1);
            let now = views.subrange(0, k as int);
            let de = |c: ControlView| default_entry_text(
                c.label,
                c.initial_tenths,
                c.min_tenths,
                c.max_tenths,
            );
            assert(now =~= prev.push(views[k - 1]));
            assert(now.map_values(de) =~= prev.map_values(de).push(default_entry_text(
                views[k - 1].label,
                views[k - 1].initial_tenths,
                views[k - 1].min_tenths,
                views[k - 1].max_tenths,
            )));
            lemma_join_push(
                prev.map_values(de),
                ",\n"@,
                default_entry_text(
                    views[k - 1].label,
                    views[k - 1].initial_tenths,
                    views[k - 1].min_tenths,
                    views[k - 1].max_tenths,
                ),
            );
            assert(s@ =~= defaults_block(now));
        }
    }
    proof {
        assert(views.subrange(0, n as int) =~= views);
    }
    s
}

/// Renders the index-constant block, one line per control.
fn render_consts(controls: &Vec<ControlDescriptor>) -> (r: String)
    ensures
        r@ == consts_block(views_of(controls@)),
{
    let ghost views = views_of(controls@);
    let n = controls.len();
    let mut s = String::new();
    let mut k: usize = 0;
    proof {
        assert(s@ =~= consts_block(views.subrange(0, 0)));
    }
    while k < n
        invariant
            k <= n,
            n == controls@.len(),
            views == views_of(controls@),
            s@ == consts_block(views.subrange(0, k as int)),
        decreases n - k,
    {
        let c = &controls[k];
        let line = render_index_const(c.label.as_str(), c.param_index);
        s.append(line.as_str());
        k = k + 1;
        proof {
            let prev = views.subrange(0, k - 1);
            let now = views.subrange(0, k as int);
            assert(now =~= prev.push(views[k - 1]));
            assert(now.drop_last() =~= prev);
            assert(s@ =~= consts_block(now));
        }
    }
    proof {
        assert(views.subrange(0, n as int) =~= views);
    }
    s
}

/// Emits the whole registry text for a collected control list and a
/// struct name, or refuses the registry: with an illegal derived field
/// name, or with two controls whose labels lower-case to the same
/// field name, no text at all is produced.
pub fn emit_registry(controls: &Vec<ControlDescriptor>, struct_name: &str) -> (r: Result<
    String,
    EmitError,
>)
    ensures
        r is Ok <==> registry_ok(views_of(controls@)),
        (r is Ok ==> r->Ok_0@ == registry_text(views_of(controls@), struct_name@)),
        (r matches Err(EmitError::IllegalIdentifier { index }) ==> index < controls@.len()
            && !is_legal_ident(ident_text(views_of(controls@)[index as int].label)) && (forall|
            i: int|
            0 <= i < index ==> is_legal_ident(
                ident_text(#[trigger] views_of(controls@)[i].label),
            ))),
        (r matches Err(EmitError::IdentifierCollision { first, second }) ==> first < second
            && second < controls@.len() && ident_text(views_of(controls@)[first as int].label)
            == ident_text(views_of(controls@)[second as int].label) && idents_legal(
            views_of(controls@),
        ) && (forall|a: int, b: int|
            0 <= a < b < second ==> ident_text(#[trigger] views_of(controls@)[a].label)
                != ident_text(#[trigger] views_of(controls@)[b].label)) && (forall|a: int|
            0 <= a < first ==> ident_text(#[trigger] views_of(controls@)[a].label) != ident_text(
                views_of(controls@)[second as int].label,
            ))),
{
    let ghost views = views_of(controls@);
    let n = controls.len();
    let mut idents: Vec<String> = Vec::new();
    let mut k: usize = 0;
    while k < n
        invariant
            k <= n,
            n == controls@.len(),
            views == views_of(controls@),
            idents@.len() == k,
            forall|i: int|
                0 <= i < k ==> #[trigger] idents@[i]@ == lower_text(controls@[i].label@),
            forall|i: int| 0 <= i < k ==> is_legal_ident(ident_text(#[trigger] views[i].label)),
        decreases n - k,
    {
        let ident = lower_label(controls[k].label.as_str());
        if !is_legal_ident_exec(ident.as_str()) {
            proof {
                assert(views[k as int].label == controls@[k as int].label@);
                assert(!is_legal_ident(ident_text(views[k as int].label)));
                assert(!idents_legal(views)) by {
                    if idents_legal(views) {
                        assert(is_legal_ident(ident_text(views[k as int].label)));
                    }
                }
            }
            return Err(EmitError::IllegalIdentifier { index: k });
        }
        idents.push(ident);
        k = k + 1;
    }
    proof {
        assert(idents_legal(views));
    }
    let mut j: usize = 1;
    while j < n
        invariant
            1 <= j,
            n == controls@.len(),
            views == views_of(controls@),
            idents@.len() == n,
            forall|i: int|
                0 <= i < n ==> #[trigger] idents@[i]@ == lower_text(controls@[i].label@),
            idents_legal(views),
            forall|a: int, b: int|
                0 <= a < b < j && b < n ==> ident_text(#[trigger] views[a].label) != ident_text(
                    #[trigger] views[b].label,
                ),
        decreases n - j,
    {
        let mut i: usize = 0;
        while i < j
            invariant
                i <= j,
                j < n,
                n == controls@.len(),
                views == views_of(controls@),
                idents@.len() == n,
                forall|a: int|
                    0 <= a < n ==> #[trigger] idents@[a]@ == lower_text(controls@[a].label@),
                idents_legal(views),
                forall|a: int, b: int|
                    0 <= a < b < j && b < n ==> ident_text(#[trigger] views[a].label)
                        != ident_text(#[trigger] views[b].label),
                forall|a: int|
                    0 <= a < i ==> ident_text(#[trigger] views[a].label) != ident_text(
                        views[j as int].label,
                    ),
            decreases j - i,
        {
            if crate::ident::str_eq(idents[i].as_str(), idents[j].as_str()) {
                proof {
                    assert(ident_text(views[i as int].label) == ident_text(views[j as int].label));
                    assert(!collision_free(views)) by {
                        if collision_free(views) {
                            assert(ident_text(views[i as int].label) != ident_text(
                                views[j as int].label,
                            ));
                        }
                    }
                }
                return Err(EmitError::IdentifierCollision { first: i, second: j });
            }
            i = i + 1;
        }
        j = j + 1;
    }
    proof {
        assert(collision_free(views));
        assert(registry_ok(views));
    }
    let fields = render_fields(controls, &idents);
    let defaults = render_defaults(controls, &idents);
    let consts = render_consts(controls);
    let count = u64_text(n as u64);
    let mut out = String::new();
    out.append("use faust_types::ParamIndex;\n#[derive(Params)]\nstruct ");
    out.append(struct_name);
    out.append(" {\n// nr of params: ");
    out.append(count.as_str());
    out.append("\n");
    out.append(fields.as_str());
    out.append("\n}\n\nimpl Default for ");
    out.append(struct_name);
    out.append(" {\n    fn default() -> Self {\n        Self {\n");
    out.append(defaults.as_str());
    out.append("\n        }\n    }\n}\n\n");
    out.append(consts.as_str());
    proof {
        assert(out@ =~= registry_text(views, struct_name@));
    }
    Ok(out)
}

/// One whole generation pass: collects the numeric controls of a
/// recorded traversal and renders the registry for them. The output
/// text is a function of the traversal and the struct name alone, so
/// two runs over the same traversal are byte-identical.
pub fn generate_from_traversal(events: &Vec<UiEvent>, struct_name: &str) -> (r: Result<
    String,
    EmitError,
>)
    ensures
        r is Ok <==> registry_ok(collected_controls(events@)),
        (r is Ok ==> r->Ok_0@ == registry_text(collected_controls(events@), struct_name@)),
{
    let mut c = UiCollector::new();
    c.run_traversal(events);
    proof {
        assert(views_of(c.controls@) =~= collected_controls(events@));
    }
    emit_registry(&c.controls, struct_name)
}

} // verus!
