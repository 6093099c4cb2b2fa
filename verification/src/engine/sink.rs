use vstd::prelude::*;

use crate::text::same_text;

verus! {

/// Unit weight of a stat, in hundredths of a weight point, as the standard
/// Dofus forgemagie weight table gives it. Ids that are not in the table
/// weigh one point.
pub open spec fn spec_stat_weight(id: Seq<char>) -> nat {
    if id == "vitalite"@ || id == "vita"@ || id == "pv"@ { 20 }
    else if id == "sagesse"@ || id == "sag"@ { 300 }
    else if id == "force"@ || id == "for"@ { 100 }
    else if id == "intelligence"@ || id == "int"@ { 100 }
    else if id == "chance"@ || id == "cha"@ { 100 }
    else if id == "agilite"@ || id == "agi"@ { 100 }
    else if id == "pa"@ || id == "action_point"@ { 10000 }
    else if id == "pm"@ || id == "movement_point"@ { 9000 }
    else if id == "po"@ || id == "portee"@ || id == "range"@ { 5100 }
    else if id == "invocations"@ || id == "invoc"@ { 4000 }
    else if id == "critique"@ || id == "crit"@ || id == "cc"@ { 200 }
    else if id == "fuite"@ { 200 }
    else if id == "tacle"@ { 200 }
    else if id == "initiative"@ || id == "ini"@ { 10 }
    else if id == "prospection"@ || id == "pros"@ { 100 }
    else if id == "pods"@ { 1 }
    else if id == "soin"@ || id == "heal"@ { 200 }
    else if id == "puissance"@ || id == "pui"@ { 200 }
    else if id == "degats_eau"@ || id == "dmg_eau"@ { 400 }
    else if id == "degats_feu"@ || id == "dmg_feu"@ { 400 }
    else if id == "degats_terre"@ || id == "dmg_terre"@ { 400 }
    else if id == "degats_air"@ || id == "dmg_air"@ { 400 }
    else if id == "degats_neutre"@ || id == "dmg_neutre"@ { 400 }
    else if id == "resistance_eau"@ || id == "res_eau"@ { 200 }
    else if id == "resistance_feu"@ || id == "res_feu"@ { 200 }
    else if id == "resistance_terre"@ || id == "res_terre"@ { 200 }
    else if id == "resistance_air"@ || id == "res_air"@ { 200 }
    else if id == "resistance_neutre"@ || id == "res_neutre"@ { 200 }
    else if id == "resistance_eau_pct"@ || id == "res_eau_pct"@ { 600 }
    else if id == "resistance_feu_pct"@ || id == "res_feu_pct"@ { 600 }
    else if id == "resistance_terre_pct"@ || id == "res_terre_pct"@ { 600 }
    else if id == "resistance_air_pct"@ || id == "res_air_pct"@ { 600 }
    else if id == "resistance_neutre_pct"@ || id == "res_neutre_pct"@ { 600 }
    else if id == "reduction_pa"@ || id == "reduc_pa"@ { 800 }
    else if id == "reduction_pm"@ || id == "reduc_pm"@ { 800 }
    else { 100 }
}

/// Unit weight of a stat for forgemagie, in hundredths of a weight point
/// (so `20` stands for a weight of 0.2 and `10000` for a weight of 100).
pub fn stat_weight(stat_id: &str) -> (w: u32)
    ensures
        w == spec_stat_weight(stat_id@),
        w > 0,
{
    let s = stat_id;
    if same_text(s, "vitalite") || same_text(s, "vita") || same_text(s, "pv") { 20 }
    else if same_text(s, "sagesse") || same_text(s, "sag") { 300 }
    else if same_text(s, "force") || same_text(s, "for") { 100 }
    else if same_text(s, "intelligence") || same_text(s, "int") { 100 }
    else if same_text(s, "chance") || same_text(s, "cha") { 100 }
    else if same_text(s, "agilite") || same_text(s, "agi") { 100 }
    else if same_text(s, "pa") || same_text(s, "action_point") { 10000 }
    else if same_text(s, "pm") || same_text(s, "movement_point") { 9000 }
    else if same_text(s, "po") || same_text(s, "portee") || same_text(s, "range") { 5100 }
    else if same_text(s, "invocations") || same_text(s, "invoc") { 4000 }
    else if same_text(s, "critique") || same_text(s, "crit") || same_text(s, "cc") { 200 }
    else if same_text(s, "fuite") { 200 }
    else if same_text(s, "tacle") { 200 }
    else if same_text(s, "initiative") || same_text(s, "ini") { 10 }
    else if same_text(s, "prospection") || same_text(s, "pros") { 100 }
    else if same_text(s, "pods") { 1 }
    else if same_text(s, "soin") || same_text(s, "heal") { 200 }
    else if same_text(s, "puissance") || same_text(s, "pui") { 200 }
    else if same_text(s, "degats_eau") || same_text(s, "dmg_eau") { 400 }
    else if same_text(s, "degats_feu") || same_text(s, "dmg_feu") { 400 }
    else if same_text(s, "degats_terre") || same_text(s, "dmg_terre") { 400 }
    else if same_text(s, "degats_air") || same_text(s, "dmg_air") { 400 }
    else if same_text(s, "degats_neutre") || same_text(s, "dmg_neutre") { 400 }
    else if same_text(s, "resistance_eau") || same_text(s, "res_eau") { 200 }
    else if same_text(s, "resistance_feu") || same_text(s, "res_feu") { 200 }
    else if same_text(s, "resistance_terre") || same_text(s, "res_terre") { 200 }
    else if same_text(s, "resistance_air") || same_text(s, "res_air") { 200 }
    else if same_text(s, "resistance_neutre") || same_text(s, "res_neutre") { 200 }
    else if same_text(s, "resistance_eau_pct") || same_text(s, "res_eau_pct") { 600 }
    else if same_text(s, "resistance_feu_pct") || same_text(s, "res_feu_pct") { 600 }
    else if same_text(s, "resistance_terre_pct") || same_text(s, "res_terre_pct") { 600 }
    else if same_text(s, "resistance_air_pct") || same_text(s, "res_air_pct") { 600 }
    else if same_text(s, "resistance_neutre_pct") || same_text(s, "res_neutre_pct") { 600 }
    else if same_text(s, "reduction_pa") || same_text(s, "reduc_pa") { 800 }
    else if same_text(s, "reduction_pm") || same_text(s, "reduc_pm") { 800 }
    else { 100 }
}

/// The weight table, id by id, in hundredths of a point: the aliases of a
/// stat weigh the same.
pub proof fn lemma_stat_weight_table()
    ensures
        spec_stat_weight("vitalite"@) == 20,
        spec_stat_weight("vita"@) == 20,
        spec_stat_weight("pv"@) == 20,
        spec_stat_weight("sagesse"@) == 300,
        spec_stat_weight("sag"@) == 300,
        spec_stat_weight("force"@) == 100,
        spec_stat_weight("for"@) == 100,
        spec_stat_weight("intelligence"@) == 100,
        spec_stat_weight("int"@) == 100,
        spec_stat_weight("chance"@) == 100,
        spec_stat_weight("cha"@) == 100,
        spec_stat_weight("agilite"@) == 100,
        spec_stat_weight("agi"@) == 100,
        spec_stat_weight("pa"@) == 10000,
        spec_stat_weight("action_point"@) == 10000,
        spec_stat_weight("pm"@) == 9000,
        spec_stat_weight("movement_point"@) == 9000,
        spec_stat_weight("po"@) == 5100,
        spec_stat_weight("portee"@) == 5100,
        spec_stat_weight("range"@) == 5100,
        spec_stat_weight("invocations"@) == 4000,
        spec_stat_weight("invoc"@) == 4000,
        spec_stat_weight("critique"@) == 200,
        spec_stat_weight("crit"@) == 200,
        spec_stat_weight("cc"@) == 200,
        spec_stat_weight("fuite"@) == 200,
        spec_stat_weight("tacle"@) == 200,
        spec_stat_weight("initiative"@) == 10,
        spec_stat_weight("ini"@) == 10,
        spec_stat_weight("prospection"@) == 100,
        spec_stat_weight("pros"@) == 100,
        spec_stat_weight("pods"@) == 1,
        spec_stat_weight("soin"@) == 200,
        spec_stat_weight("heal"@) == 200,
        spec_stat_weight("puissance"@) == 200,
        spec_stat_weight("pui"@) == 200,
        spec_stat_weight("degats_eau"@) == 400,
        spec_stat_weight("dmg_eau"@) == 400,
        spec_stat_weight("degats_feu"@) == 400,
        spec_stat_weight("dmg_feu"@) == 400,
        spec_stat_weight("degats_terre"@) == 400,
        spec_stat_weight("dmg_terre"@) == 400,
        spec_stat_weight("degats_air"@) == 400,
        spec_stat_weight("dmg_air"@) == 400,
        spec_stat_weight("degats_neutre"@) == 400,
        spec_stat_weight("dmg_neutre"@) == 400,
        spec_stat_weight("resistance_eau"@) == 200,
        spec_stat_weight("res_eau"@) == 200,
        spec_stat_weight("resistance_feu"@) == 200,
        spec_stat_weight("res_feu"@) == 200,
        spec_stat_weight("resistance_terre"@) == 200,
        spec_stat_weight("res_terre"@) == 200,
        spec_stat_weight("resistance_air"@) == 200,
        spec_stat_weight("res_air"@) == 200,
        spec_stat_weight("resistance_neutre"@) == 200,
        spec_stat_weight("res_neutre"@) == 200,
        spec_stat_weight("resistance_eau_pct"@) == 600,
        spec_stat_weight("res_eau_pct"@) == 600,
        spec_stat_weight("resistance_feu_pct"@) == 600,
        spec_stat_weight("res_feu_pct"@) == 600,
        spec_stat_weight("resistance_terre_pct"@) == 600,
        spec_stat_weight("res_terre_pct"@) == 600,
        spec_stat_weight("resistance_air_pct"@) == 600,
        spec_stat_weight("res_air_pct"@) == 600,
        spec_stat_weight("resistance_neutre_pct"@) == 600,
        spec_stat_weight("res_neutre_pct"@) == 600,
        spec_stat_weight("reduction_pa"@) == 800,
        spec_stat_weight("reduc_pa"@) == 800,
        spec_stat_weight("reduction_pm"@) == 800,
        spec_stat_weight("reduc_pm"@) == 800,
{
    reveal_strlit("vitalite");
    assert("vitalite"@.len() == 8 && "vitalite"@[0] == 'v');
    reveal_strlit("vita");
    assert("vita"@.len() == 4 && "vita"@[0] == 'v');
    reveal_strlit("pv");
    assert("pv"@.len() == 2 && "pv"@[0] == 'p' && "pv"@[1] == 'v');
    reveal_strlit("sagesse");
    assert("sagesse"@.len() == 7 && "sagesse"@[0] == 's');
    reveal_strlit("sag");
    assert("sag"@.len() == 3 && "sag"@[0] == 's');
    reveal_strlit("force");
    assert("force"@.len() == 5 && "force"@[0] == 'f' && "force"@[1] == 'o');
    reveal_strlit("for");
    assert("for"@.len() == 3 && "for"@[0] == 'f');
    reveal_strlit("intelligence");
    assert("intelligence"@.len() == 12 && "intelligence"@[0] == 'i');
    reveal_strlit("int");
    assert("int"@.len() == 3 && "int"@[0] == 'i' && "int"@[2] == 't');
    reveal_strlit("chance");
    assert("chance"@.len() == 6 && "chance"@[0] == 'c');
    reveal_strlit("cha");
    assert("cha"@.len() == 3 && "cha"@[0] == 'c');
    reveal_strlit("agilite");
    assert("agilite"@.len() == 7 && "agilite"@[0] == 'a');
    reveal_strlit("agi");
    assert("agi"@.len() == 3 && "agi"@[0] == 'a');
    reveal_strlit("pa");
    assert("pa"@.len() == 2 && "pa"@[0] == 'p' && "pa"@[1] == 'a');
    reveal_strlit("action_point");
    assert("action_point"@.len() == 12 && "action_point"@[0] == 'a');
    reveal_strlit("pm");
    assert("pm"@.len() == 2 && "pm"@[0] == 'p' && "pm"@[1] == 'm');
    reveal_strlit("movement_point");
    assert("movement_point"@.len() == 14 && "movement_point"@[0] == 'm');
    reveal_strlit("po");
    assert("po"@.len() == 2 && "po"@[0] == 'p' && "po"@[1] == 'o');
    reveal_strlit("portee");
    assert("portee"@.len() == 6 && "portee"@[0] == 'p');
    reveal_strlit("range");
    assert("range"@.len() == 5 && "range"@[0] == 'r');
    reveal_strlit("invocations");
    assert("invocations"@.len() == 11 && "invocations"@[0] == 'i');
    reveal_strlit("invoc");
    assert("invoc"@.len() == 5 && "invoc"@[0] == 'i');
    reveal_strlit("critique");
    assert("critique"@.len() == 8 && "critique"@[0] == 'c');
    reveal_strlit("crit");
    assert("crit"@.len() == 4 && "crit"@[0] == 'c');
    reveal_strlit("cc");
    assert("cc"@.len() == 2 && "cc"@[0] == 'c');
    reveal_strlit("fuite");
    assert("fuite"@.len() == 5 && "fuite"@[0] == 'f' && "fuite"@[1] == 'u');
    reveal_strlit("tacle");
    assert("tacle"@.len() == 5 && "tacle"@[0] == 't');
    reveal_strlit("initiative");
    assert("initiative"@.len() == 10 && "initiative"@[0] == 'i');
    reveal_strlit("ini");
    assert("ini"@.len() == 3 && "ini"@[0] == 'i' && "ini"@[2] == 'i');
    reveal_strlit("prospection");
    assert("prospection"@.len() == 11 && "prospection"@[0] == 'p');
    reveal_strlit("pros");
    assert("pros"@.len() == 4 && "pros"@[0] == 'p' && "pros"@[1] == 'r');
    reveal_strlit("pods");
    assert("pods"@.len() == 4 && "pods"@[0] == 'p' && "pods"@[1] == 'o');
    reveal_strlit("soin");
    assert("soin"@.len() == 4 && "soin"@[0] == 's');
    reveal_strlit("heal");
    assert("heal"@.len() == 4 && "heal"@[0] == 'h');
    reveal_strlit("puissance");
    assert("puissance"@.len() == 9 && "puissance"@[0] == 'p');
    reveal_strlit("pui");
    assert("pui"@.len() == 3 && "pui"@[0] == 'p');
    reveal_strlit("degats_eau");
    assert("degats_eau"@.len() == 10 && "degats_eau"@[0] == 'd' && "degats_eau"@[1] == 'e' && "degats_eau"@[7] == 'e');
    reveal_strlit("dmg_eau");
    assert("dmg_eau"@.len() == 7 && "dmg_eau"@[0] == 'd' && "dmg_eau"@[4] == 'e');
    reveal_strlit("degats_feu");
    assert("degats_feu"@.len() == 10 && "degats_feu"@[0] == 'd' && "degats_feu"@[1] == 'e' && "degats_feu"@[7] == 'f');
    reveal_strlit("dmg_feu");
    assert("dmg_feu"@.len() == 7 && "dmg_feu"@[0] == 'd' && "dmg_feu"@[4] == 'f');
    reveal_strlit("degats_terre");
    assert("degats_terre"@.len() == 12 && "degats_terre"@[0] == 'd');
    reveal_strlit("dmg_terre");
    assert("dmg_terre"@.len() == 9 && "dmg_terre"@[0] == 'd');
    reveal_strlit("degats_air");
    assert("degats_air"@.len() == 10 && "degats_air"@[0] == 'd' && "degats_air"@[1] == 'e' && "degats_air"@[7] == 'a');
    reveal_strlit("dmg_air");
    assert("dmg_air"@.len() == 7 && "dmg_air"@[0] == 'd' && "dmg_air"@[4] == 'a');
    reveal_strlit("degats_neutre");
    assert("degats_neutre"@.len() == 13 && "degats_neutre"@[0] == 'd');
    reveal_strlit("dmg_neutre");
    assert("dmg_neutre"@.len() == 10 && "dmg_neutre"@[0] == 'd' && "dmg_neutre"@[1] == 'm');
    reveal_strlit("resistance_eau");
    assert("resistance_eau"@.len() == 14 && "resistance_eau"@[0] == 'r' && "resistance_eau"@[3] == 'i' && "resistance_eau"@[11] == 'e');
    reveal_strlit("res_eau");
    assert("res_eau"@.len() == 7 && "res_eau"@[0] == 'r' && "res_eau"@[4] == 'e');
    reveal_strlit("resistance_feu");
    assert("resistance_feu"@.len() == 14 && "resistance_feu"@[0] == 'r' && "resistance_feu"@[3] == 'i' && "resistance_feu"@[11] == 'f');
    reveal_strlit("res_feu");
    assert("res_feu"@.len() == 7 && "res_feu"@[0] == 'r' && "res_feu"@[4] == 'f');
    reveal_strlit("resistance_terre");
    assert("resistance_terre"@.len() == 16);
    reveal_strlit("res_terre");
    assert("res_terre"@.len() == 9 && "res_terre"@[0] == 'r');
    reveal_strlit("resistance_air");
    assert("resistance_air"@.len() == 14 && "resistance_air"@[0] == 'r' && "resistance_air"@[3] == 'i' && "resistance_air"@[11] == 'a');
    reveal_strlit("res_air");
    assert("res_air"@.len() == 7 && "res_air"@[0] == 'r' && "res_air"@[4] == 'a');
    reveal_strlit("resistance_neutre");
    assert("resistance_neutre"@.len() == 17);
    reveal_strlit("res_neutre");
    assert("res_neutre"@.len() == 10 && "res_neutre"@[0] == 'r');
    reveal_strlit("resistance_eau_pct");
    assert("resistance_eau_pct"@.len() == 18 && "resistance_eau_pct"@[11] == 'e');
    reveal_strlit("res_eau_pct");
    assert("res_eau_pct"@.len() == 11 && "res_eau_pct"@[0] == 'r' && "res_eau_pct"@[4] == 'e');
    reveal_strlit("resistance_feu_pct");
    assert("resistance_feu_pct"@.len() == 18 && "resistance_feu_pct"@[11] == 'f');
    reveal_strlit("res_feu_pct");
    assert("res_feu_pct"@.len() == 11 && "res_feu_pct"@[0] == 'r' && "res_feu_pct"@[4] == 'f');
    reveal_strlit("resistance_terre_pct");
    assert("resistance_terre_pct"@.len() == 20);
    reveal_strlit("res_terre_pct");
    assert("res_terre_pct"@.len() == 13 && "res_terre_pct"@[0] == 'r');
    reveal_strlit("resistance_air_pct");
    assert("resistance_air_pct"@.len() == 18 && "resistance_air_pct"@[11] == 'a');
    reveal_strlit("res_air_pct");
    assert("res_air_pct"@.len() == 11 && "res_air_pct"@[0] == 'r' && "res_air_pct"@[4] == 'a');
    reveal_strlit("resistance_neutre_pct");
    assert("resistance_neutre_pct"@.len() == 21);
    reveal_strlit("res_neutre_pct");
    assert("res_neutre_pct"@.len() == 14 && "res_neutre_pct"@[0] == 'r' && "res_neutre_pct"@[3] == '_');
    reveal_strlit("reduction_pa");
    assert("reduction_pa"@.len() == 12 && "reduction_pa"@[0] == 'r' && "reduction_pa"@[11] == 'a');
    reveal_strlit("reduc_pa");
    assert("reduc_pa"@.len() == 8 && "reduc_pa"@[0] == 'r' && "reduc_pa"@[7] == 'a');
    reveal_strlit("reduction_pm");
    assert("reduction_pm"@.len() == 12 && "reduction_pm"@[0] == 'r' && "reduction_pm"@[11] == 'm');
    reveal_strlit("reduc_pm");
    assert("reduc_pm"@.len() == 8 && "reduc_pm"@[0] == 'r' && "reduc_pm"@[7] == 'm');
}

/// Maximum sink capacity for an item of the given level: `25 + 4.875 * level`
/// rounded to the nearest integer, halves rounded up. With `4.875 = 39/8`
/// this is `(200 + 39 * level) / 8` rounded, i.e. `(204 + 39 * level) / 8`
/// in integer division.
pub open spec fn spec_max_sink_for_level(level: nat) -> nat {
    ((204 + 39 * level) / 8) as nat
}

/// Maximum sink capacity for an item of the given level (level 1 gives 30,
/// level 200 gives 1000). Higher-level items have more capacity.
pub fn max_sink_for_level(level: u32) -> (cap: u64)
    ensures
        cap == spec_max_sink_for_level(level as nat),
{
    (204 + 39 * (level as u64)) / 8
}

/// Higher-level items never have less sink capacity.
pub proof fn lemma_max_sink_monotonic(a: nat, b: nat)
    requires
        a <= b,
    ensures
        spec_max_sink_for_level(a) <= spec_max_sink_for_level(b),
{
    assert((204 + 39 * a) / 8 <= (204 + 39 * b) / 8) by (nonlinear_arith)
        requires a <= b;
}

} // verus!
