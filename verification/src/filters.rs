use vstd::prelude::*;

verus! {

/// The authorization lists: which users may use the bot at all, and which of
/// them may use administrator commands.
#[derive(Clone, Debug)]
pub struct ConfigParameters {
    pub trusted_user_ids: Vec<u64>,
    pub admin_user_ids: Vec<u64>,
}

fn id_list_contains(ids: &Vec<u64>, user_id: u64) -> (r: bool)
    ensures
        r == ids@.contains(user_id),
{
    let mut i: usize = 0;
    while i < ids.len()
        invariant
            0 <= i <= ids@.len(),
            forall|k: int| 0 <= k < i ==> ids@[k] != user_id,
        decreases ids@.len() - i,
    {
        if ids[i] == user_id {
            return true;
        }
        i += 1;
    }
    false
}

/// True when the sender is on the trusted list or the admin list.
pub fn is_trusted(cfg: &ConfigParameters, user_id: u64) -> (r: bool)
    ensures
        r == (cfg.trusted_user_ids@.contains(user_id) || cfg.admin_user_ids@.contains(user_id)),
{
    id_list_contains(&cfg.trusted_user_ids, user_id) || id_list_contains(
        &cfg.admin_user_ids,
        user_id,
    )
}

/// True when the sender is on the admin list.
pub fn is_admin(cfg: &ConfigParameters, user_id: u64) -> (r: bool)
    ensures
        r == cfg.admin_user_ids@.contains(user_id),
{
    id_list_contains(&cfg.admin_user_ids, user_id)
}

/// A message text is routed as a link submission when it starts with `http`.
pub open spec fn starts_with_http(s: Seq<char>) -> bool {
    s.len() >= 4 && s[0] == 'h' && s[1] == 't' && s[2] == 't' && s[3] == 'p'
}

/// True when the incoming text starts with `http`.
pub fn is_link(text: &str) -> (r: bool)
    ensures
        r == starts_with_http(text@),
{
    let n = text.unicode_len();
    n >= 4 && text.get_char(0) == 'h' && text.get_char(1) == 't' && text.get_char(2) == 't'
        && text.get_char(3) == 'p'
}

} // verus!
