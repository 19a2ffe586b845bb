use vstd::prelude::*;
use crate::paras::{apply_due, is_due, schedule, set_code, ParasView, ScheduledUpgrade};
use crate::pruning::PastCodeEntry;
use crate::types::{sat_add, Event, HostConfig, ParaId, ValidationCode};

verus! {

/// After a forced code overwrite, the current code of the para is exactly the
/// code given, and the codes of other paras are untouched.
pub proof fn lemma_set_code_then_read(v: ParasView, para: ParaId, code: ValidationCode)
    ensures
        set_code(v, para, code).codes.contains_key(para.0),
        set_code(v, para, code).codes[para.0] == code,
        forall|k: u32| k != para.0 ==> #[trigger] set_code(v, para, code).codes.contains_key(k)
            == v.codes.contains_key(k) && (v.codes.contains_key(k) ==> set_code(
            v,
            para,
            code,
        ).codes[k] == v.codes[k]),
{
}

/// Of two upgrades scheduled back to back for one para, only the second can
/// ever be applied: it is the one pending, and applying when it is due makes
/// its code current and leaves nothing pending; before then nothing changes,
/// whatever the first one's activation block was.
pub proof fn lemma_supersession(
    v: ParasView,
    para: ParaId,
    first: ValidationCode,
    first_block: u32,
    second: ValidationCode,
    second_block: u32,
    current_block: u32,
    cfg: HostConfig,
)
    ensures
        ({
            let w = schedule(schedule(v, para, first, first_block), para, second, second_block);
            &&& w.upgrades[para.0] == (ScheduledUpgrade { code: second, activation_block: second_block })
            &&& second_block <= current_block ==> {
                &&& apply_due(w, para, current_block, cfg).codes[para.0] == second
                &&& !apply_due(w, para, current_block, cfg).upgrades.contains_key(para.0)
            }
            &&& second_block > current_block ==> apply_due(w, para, current_block, cfg) == w
        }),
{
}

/// An upgrade whose activation block is already in the past is still
/// applied: its code becomes current, the replaced code is retired until
/// `current_block` plus the retention period, and a code-updated notification
/// is emitted.
pub proof fn lemma_expired_upgrade_applies(
    v: ParasView,
    para: ParaId,
    current_block: u32,
    cfg: HostConfig,
)
    requires
        v.upgrades.contains_key(para.0),
        v.upgrades[para.0].activation_block < current_block,
    ensures
        is_due(v, para, current_block),
        apply_due(v, para, current_block, cfg).codes[para.0] == v.upgrades[para.0].code,
        apply_due(v, para, current_block, cfg).events == v.events.push(
            Event::CurrentCodeUpdated(para),
        ),
        v.codes.contains_key(para.0) ==> apply_due(v, para, current_block, cfg).past_code
            == v.past_code.push(
            PastCodeEntry {
                para,
                code: v.codes[para.0],
                eligible_block: sat_add(current_block, cfg.code_retention_period),
            },
        ),
{
}

/// Applying a due upgrade twice at the same block changes nothing the second
/// time.
pub proof fn lemma_apply_idempotent(v: ParasView, para: ParaId, current_block: u32, cfg: HostConfig)
    ensures
        !is_due(apply_due(v, para, current_block, cfg), para, current_block),
        apply_due(apply_due(v, para, current_block, cfg), para, current_block, cfg) == apply_due(
            v,
            para,
            current_block,
            cfg,
        ),
{
}

/// An upgrade scheduled at `activation_block` is not applied one block
/// earlier, and is applied at that block: its code becomes current and the
/// code it replaces is retired until `activation_block` plus the retention
/// period.
pub proof fn lemma_upgrade_at_activation(
    v: ParasView,
    para: ParaId,
    code: ValidationCode,
    activation_block: u32,
    cfg: HostConfig,
)
    ensures
        ({
            let w = schedule(v, para, code, activation_block);
            &&& activation_block > 0 ==> apply_due(w, para, (activation_block - 1) as u32, cfg) == w
            &&& apply_due(w, para, activation_block, cfg).codes[para.0] == code
            &&& v.codes.contains_key(para.0) ==> apply_due(
                w,
                para,
                activation_block,
                cfg,
            ).past_code == v.past_code.push(
                PastCodeEntry {
                    para,
                    code: v.codes[para.0],
                    eligible_block: sat_add(activation_block, cfg.code_retention_period),
                },
            )
        }),
{
}

} // verus!
