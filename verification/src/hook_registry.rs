//! The registry of approved transfer hooks.

use vstd::prelude::*;
use crate::host::AccountView;
use crate::math::counted;
use crate::pubkey::{
    contains, distinct, lemma_without_all, lemma_without_all_push, lemma_without_first, without_all,
    Pubkey,
};

verus! {

/// What a hook program does.
#[derive(Clone, Copy, Debug, PartialEq, Eq, Structural)]
pub enum HookType {
    KYC,
    Whitelist,
    RateLimit,
    Royalty,
    Custom,
}

/// How much can go wrong with a hook program.
#[derive(Clone, Copy, Debug, PartialEq, Eq, Structural)]
pub enum RiskLevel {
    /// Basic validation, minimal risk
    Low,
    /// Standard compliance checks
    Medium,
    /// Complex validation, potential for failures
    High,
    /// Mission-critical, extensive validation required
    Critical,
}

/// Why an instruction of the registry is refused.
#[derive(Clone, Copy, Debug, PartialEq, Eq, Structural)]
pub enum RegistryError {
    /// Hook program is already approved
    HookAlreadyApproved,
    /// Hook program is not found
    HookNotFound,
    /// Unauthorized access
    Unauthorized,
    /// Registry is at maximum capacity
    RegistryFull,
    /// Invalid hook program
    InvalidHookProgram,
    /// Registry is disabled
    RegistryDisabled,
    /// Hook validation failed
    HookValidationFailed,
}

/// What the registry keeps of a hook program, also after its removal.
#[derive(Debug, PartialEq, Eq)]
pub struct HookMetadata {
    pub program_id: Pubkey,
    pub hook_type: HookType,
    pub name: String,
    pub description: String,
    pub risk_level: RiskLevel,
    pub approved_at: i64,
    pub last_validated_at: i64,
    pub total_validations: u64,
    pub total_failures: u64,
    pub is_active: bool,
}

impl HookMetadata {
    /// Bytes that one entry takes in an account.
    pub const SPACE: usize = 225;
}

/// One hook program of a batch to approve.
#[derive(Debug, PartialEq, Eq)]
pub struct BulkHookData {
    pub program_id: Pubkey,
    pub hook_type: HookType,
    pub name: String,
    pub description: String,
    pub risk_level: RiskLevel,
}

/// The registry: the approved hook programs in the order of their approval,
/// and the metadata of every program that was ever approved.
#[derive(Debug, PartialEq, Eq)]
pub struct HookRegistry {
    pub authority: Pubkey,
    pub max_hooks: u16,
    pub approved_hooks: Vec<Pubkey>,
    pub hook_metadata: Vec<HookMetadata>,
    pub created_at: i64,
    pub total_hooks: u32,
    pub total_validations: u64,
    pub total_rejections: u64,
    pub is_enabled: bool,
}

impl HookRegistry {
    /// Bytes that the record takes in an account.
    pub const SPACE: usize = 11671;
}

/// The mathematical content of a [`HookRegistry`].
#[verifier::ext_equal]
pub struct HookRegistryView {
    pub authority: Pubkey,
    pub max_hooks: u16,
    pub approved_hooks: Seq<Pubkey>,
    pub hook_metadata: Seq<HookMetadata>,
    pub created_at: i64,
    pub total_hooks: u32,
    pub total_validations: u64,
    pub total_rejections: u64,
    pub is_enabled: bool,
}

impl View for HookRegistry {
    type V = HookRegistryView;

    open spec fn view(&self) -> HookRegistryView {
        HookRegistryView {
            authority: self.authority,
            max_hooks: self.max_hooks,
            approved_hooks: self.approved_hooks@,
            hook_metadata: self.hook_metadata@,
            created_at: self.created_at,
            total_hooks: self.total_hooks,
            total_validations: self.total_validations,
            total_rejections: self.total_rejections,
            is_enabled: self.is_enabled,
        }
    }
}

/// `i` is the position of the last metadata entry of `id`.
pub open spec fn is_last_entry(metadata: Seq<HookMetadata>, id: Pubkey, i: int) -> bool {
    &&& 0 <= i < metadata.len()
    &&& metadata[i].program_id == id
    &&& forall|j: int| i < j < metadata.len() ==> metadata[j].program_id != id
}

/// Whether there is a metadata entry of `id`.
pub open spec fn has_entry(metadata: Seq<HookMetadata>, id: Pubkey) -> bool {
    exists|i: int| 0 <= i < metadata.len() && #[trigger] metadata[i].program_id == id
}

/// The position of the last metadata entry of `id`, where there is one.
pub open spec fn last_entry(metadata: Seq<HookMetadata>, id: Pubkey) -> int {
    choose|i: int| is_last_entry(metadata, id, i)
}

/// The metadata entry that speaks for `id`: the last of its entries, which
/// is the one under which the program was approved last.
pub open spec fn entry_of(metadata: Seq<HookMetadata>, id: Pubkey) -> Option<HookMetadata> {
    if has_entry(metadata, id) {
        Some(metadata[last_entry(metadata, id)])
    } else {
        None
    }
}

/// `metadata` with the entry that speaks for `id` replaced by `entry`,
/// or unchanged where `id` has no entry.
pub open spec fn with_entry(metadata: Seq<HookMetadata>, id: Pubkey, entry: HookMetadata) -> Seq<HookMetadata> {
    if has_entry(metadata, id) {
        metadata.update(last_entry(metadata, id), entry)
    } else {
        metadata
    }
}

/// The number of listed programs after one more was listed; the largest
/// value stays.
pub open spec fn one_more(total: u32) -> u32 {
    if total < u32::MAX {
        (total + 1) as u32
    } else {
        total
    }
}

/// The metadata of a hook program at its approval.
pub open spec fn new_metadata(
    program_id: Pubkey,
    hook_type: HookType,
    name: String,
    description: String,
    risk_level: RiskLevel,
    now: i64,
) -> HookMetadata {
    HookMetadata {
        program_id,
        hook_type,
        name,
        description,
        risk_level,
        approved_at: now,
        last_validated_at: 0,
        total_validations: 0,
        total_failures: 0,
        is_active: true,
    }
}

impl HookRegistryView {
    /// The invariant of a registry: no program is approved twice, the
    /// approved programs are no more than the maximum, the counter counts
    /// them, and each of them has metadata.
    pub open spec fn wf(self) -> bool {
        &&& distinct(self.approved_hooks)
        &&& self.approved_hooks.len() <= self.max_hooks
        &&& self.total_hooks == self.approved_hooks.len()
        &&& forall|i: int|
            0 <= i < self.approved_hooks.len() ==> has_entry(self.hook_metadata, #[trigger] self.approved_hooks[i])
    }

    /// Whether `id` is among the approved programs.
    pub open spec fn is_listed(self, id: Pubkey) -> bool {
        self.approved_hooks.contains(id)
    }

    /// Whether the metadata that speaks for `id` is marked active.
    pub open spec fn is_active(self, id: Pubkey) -> bool {
        match entry_of(self.hook_metadata, id) {
            Some(entry) => entry.is_active,
            None => false,
        }
    }

    /// Whether `id` passes: always while the registry is disabled, else
    /// where it is listed and marked active.
    pub open spec fn is_approved(self, id: Pubkey) -> bool {
        !self.is_enabled || (self.is_listed(id) && self.is_active(id))
    }

    /// Why the approval of `id` is refused, if it is.  `executable` says
    /// whether a hook program was handed in, and whether it can be run.
    pub open spec fn approval_refusal(self, id: Pubkey, executable: Option<bool>) -> Option<RegistryError> {
        if self.is_listed(id) {
            Some(RegistryError::HookAlreadyApproved)
        } else if self.approved_hooks.len() >= self.max_hooks {
            Some(RegistryError::RegistryFull)
        } else if executable == Some(false) {
            Some(RegistryError::InvalidHookProgram)
        } else {
            None
        }
    }

    /// Why the removal of `id` is refused, if it is.
    pub open spec fn removal_refusal(self, id: Pubkey) -> Option<RegistryError> {
        if self.is_listed(id) {
            None
        } else {
            Some(RegistryError::HookNotFound)
        }
    }

    /// The registry with a program approved under `entry`.
    pub open spec fn with_hook(self, entry: HookMetadata) -> HookRegistryView {
        HookRegistryView {
            approved_hooks: self.approved_hooks.push(entry.program_id),
            hook_metadata: self.hook_metadata.push(entry),
            total_hooks: one_more(self.total_hooks),
            ..self
        }
    }

    /// The registry with `id` removed: it leaves the approved programs, the
    /// metadata that speaks for it is marked inactive and stays.
    pub open spec fn without_hook(self, id: Pubkey) -> HookRegistryView {
        HookRegistryView {
            approved_hooks: without_all(self.approved_hooks, id),
            hook_metadata: match entry_of(self.hook_metadata, id) {
                Some(entry) => with_entry(self.hook_metadata, id, HookMetadata { is_active: false, ..entry }),
                None => self.hook_metadata,
            },
            total_hooks: if self.total_hooks == 0 { 0u32 } else { (self.total_hooks - 1) as u32 },
            ..self
        }
    }

    /// The registry with the metadata that speaks for `id` marked as
    /// `is_active` says.
    pub open spec fn with_active(self, id: Pubkey, is_active: bool) -> HookRegistryView {
        HookRegistryView {
            hook_metadata: match entry_of(self.hook_metadata, id) {
                Some(entry) => with_entry(self.hook_metadata, id, HookMetadata { is_active, ..entry }),
                None => self.hook_metadata,
            },
            ..self
        }
    }

    /// The registry after one validation was counted: in the totals, and
    /// in the metadata that speaks for `id`, where there is one.
    pub open spec fn with_validation(self, id: Pubkey, successful: bool, now: i64) -> HookRegistryView {
        HookRegistryView {
            total_validations: if successful { counted(self.total_validations) } else { self.total_validations },
            total_rejections: if successful { self.total_rejections } else { counted(self.total_rejections) },
            hook_metadata: match entry_of(self.hook_metadata, id) {
                Some(entry) => with_entry(
                    self.hook_metadata,
                    id,
                    HookMetadata {
                        last_validated_at: now,
                        total_validations: if successful { counted(entry.total_validations) } else { entry.total_validations },
                        total_failures: if successful { entry.total_failures } else { counted(entry.total_failures) },
                        ..entry
                    },
                ),
                None => self.hook_metadata,
            },
            ..self
        }
    }
}

/// A program with an entry has a last entry, and that one speaks for it.
pub proof fn lemma_last_entry(metadata: Seq<HookMetadata>, id: Pubkey)
    requires
        has_entry(metadata, id),
    ensures
        is_last_entry(metadata, id, last_entry(metadata, id)),
    decreases metadata.len(),
{
    let end = metadata.len() - 1;
    if metadata[end].program_id == id {
        assert(is_last_entry(metadata, id, end));
    } else {
        let front = metadata.drop_last();
        let i = choose|i: int| 0 <= i < metadata.len() && #[trigger] metadata[i].program_id == id;
        assert(front[i].program_id == id);
        lemma_last_entry(front, id);
        let f = last_entry(front, id);
        assert(metadata[f] == front[f]);
        assert forall|k: int| f < k < metadata.len() implies metadata[k].program_id != id by {
            if k < end {
                assert(metadata[k] == front[k]);
            }
        }
        assert(is_last_entry(metadata, id, f));
    }
}

/// Metadata that keeps its programs in their places, and may have grown,
/// keeps an entry for every program that had one.
pub proof fn lemma_entries_stay(before: Seq<HookMetadata>, after: Seq<HookMetadata>, id: Pubkey)
    requires
        before.len() <= after.len(),
        forall|j: int| 0 <= j < before.len() ==> (#[trigger] after[j]).program_id == before[j].program_id,
        has_entry(before, id),
    ensures
        has_entry(after, id),
{
    let i = choose|i: int| 0 <= i < before.len() && #[trigger] before[i].program_id == id;
    assert(after[i].program_id == id);
}

/// Replacing the entry that speaks for a program by an entry of the same
/// program keeps every program in its place.
pub proof fn lemma_with_entry_keeps_programs(metadata: Seq<HookMetadata>, id: Pubkey, entry: HookMetadata)
    requires
        entry.program_id == id,
    ensures
        with_entry(metadata, id, entry).len() == metadata.len(),
        forall|j: int|
            0 <= j < metadata.len() ==> (#[trigger] with_entry(metadata, id, entry)[j]).program_id
                == metadata[j].program_id,
{
    if has_entry(metadata, id) {
        lemma_last_entry(metadata, id);
    }
}

/// An approval that a well-formed registry accepts leaves it well-formed.
pub proof fn lemma_with_hook_wf(registry: HookRegistryView, entry: HookMetadata, executable: Option<bool>)
    requires
        registry.wf(),
        registry.approval_refusal(entry.program_id, executable) is None,
    ensures
        registry.with_hook(entry).wf(),
{
    let after = registry.with_hook(entry);
    let last = registry.hook_metadata.len() as int;
    assert(after.hook_metadata[last].program_id == entry.program_id);
    assert forall|i: int| 0 <= i < after.approved_hooks.len() implies has_entry(
        after.hook_metadata,
        #[trigger] after.approved_hooks[i],
    ) by {
        if i < registry.approved_hooks.len() {
            assert(after.approved_hooks[i] == registry.approved_hooks[i]);
            lemma_entries_stay(registry.hook_metadata, after.hook_metadata, registry.approved_hooks[i]);
        }
    }
}

/// A removal that a well-formed registry accepts leaves it well-formed.
pub proof fn lemma_without_hook_wf(registry: HookRegistryView, id: Pubkey)
    requires
        registry.wf(),
        registry.is_listed(id),
    ensures
        registry.without_hook(id).wf(),
{
    let after = registry.without_hook(id);
    lemma_without_all(registry.approved_hooks, id);
    lemma_without_first(registry.approved_hooks, id);
    if let Some(entry) = entry_of(registry.hook_metadata, id) {
        lemma_last_entry(registry.hook_metadata, id);
        lemma_with_entry_keeps_programs(registry.hook_metadata, id, HookMetadata { is_active: false, ..entry });
    }
    assert forall|i: int| 0 <= i < after.approved_hooks.len() implies has_entry(
        after.hook_metadata,
        #[trigger] after.approved_hooks[i],
    ) by {
        let k = after.approved_hooks[i];
        assert(after.approved_hooks.contains(k));
        assert(registry.approved_hooks.contains(k));
        let a = choose|a: int| 0 <= a < registry.approved_hooks.len() && registry.approved_hooks[a] == k;
        assert(has_entry(registry.hook_metadata, registry.approved_hooks[a]));
        lemma_entries_stay(registry.hook_metadata, after.hook_metadata, k);
    }
}

/// Marking a program leaves a well-formed registry well-formed.
pub proof fn lemma_with_active_wf(registry: HookRegistryView, id: Pubkey, is_active: bool)
    requires
        registry.wf(),
    ensures
        registry.with_active(id, is_active).wf(),
{
    let after = registry.with_active(id, is_active);
    if let Some(entry) = entry_of(registry.hook_metadata, id) {
        lemma_last_entry(registry.hook_metadata, id);
        lemma_with_entry_keeps_programs(registry.hook_metadata, id, HookMetadata { is_active, ..entry });
    }
    assert forall|i: int| 0 <= i < after.approved_hooks.len() implies has_entry(
        after.hook_metadata,
        #[trigger] after.approved_hooks[i],
    ) by {
        assert(has_entry(registry.hook_metadata, registry.approved_hooks[i]));
        lemma_entries_stay(registry.hook_metadata, after.hook_metadata, after.approved_hooks[i]);
    }
}

/// Counting a validation leaves a well-formed registry well-formed.
pub proof fn lemma_with_validation_wf(registry: HookRegistryView, id: Pubkey, successful: bool, now: i64)
    requires
        registry.wf(),
    ensures
        registry.with_validation(id, successful, now).wf(),
{
    let after = registry.with_validation(id, successful, now);
    if let Some(entry) = entry_of(registry.hook_metadata, id) {
        lemma_last_entry(registry.hook_metadata, id);
        lemma_with_entry_keeps_programs(
            registry.hook_metadata,
            id,
            HookMetadata {
                last_validated_at: now,
                total_validations: if successful { counted(entry.total_validations) } else { entry.total_validations },
                total_failures: if successful { entry.total_failures } else { counted(entry.total_failures) },
                ..entry
            },
        );
    }
    assert forall|i: int| 0 <= i < after.approved_hooks.len() implies has_entry(
        after.hook_metadata,
        #[trigger] after.approved_hooks[i],
    ) by {
        assert(has_entry(registry.hook_metadata, registry.approved_hooks[i]));
        lemma_entries_stay(registry.hook_metadata, after.hook_metadata, after.approved_hooks[i]);
    }
}

/// The position of the metadata entry that speaks for `id`.
pub fn find_metadata(metadata: &Vec<HookMetadata>, id: &Pubkey) -> (r: Option<usize>)
    ensures
        match r {
            Some(i) => has_entry(metadata@, *id) && i == last_entry(metadata@, *id) && is_last_entry(
                metadata@,
                *id,
                i as int,
            ),
            None => !has_entry(metadata@, *id),
        },
{
    let mut i: usize = metadata.len();
    while i > 0
        invariant
            i <= metadata.len(),
            forall|j: int| i <= j < metadata.len() ==> metadata[j].program_id != *id,
        decreases i,
    {
        i -= 1;
        if metadata[i].program_id == *id {
            proof {
                assert(is_last_entry(metadata@, *id, i as int));
                let f = last_entry(metadata@, *id);
                assert(is_last_entry(metadata@, *id, f));
            }
            return Some(i);
        }
    }
    None
}

/// A new registry: enabled, empty, with nothing counted.
pub fn initialize_registry(authority: Pubkey, max_hooks: u16, now: i64) -> (registry: HookRegistry)
    ensures
        registry@ == (HookRegistryView {
            authority,
            max_hooks,
            approved_hooks: Seq::empty(),
            hook_metadata: Seq::empty(),
            created_at: now,
            total_hooks: 0,
            total_validations: 0,
            total_rejections: 0,
            is_enabled: true,
        }),
        registry@.wf(),
{
    HookRegistry {
        authority,
        max_hooks,
        approved_hooks: Vec::new(),
        hook_metadata: Vec::new(),
        created_at: now,
        total_hooks: 0,
        total_validations: 0,
        total_rejections: 0,
        is_enabled: true,
    }
}

/// Approves a hook program.  It is refused where the program is approved
/// already, else where the registry is full, else where a program was
/// handed in that cannot be run.  An approved program is listed last, with
/// fresh metadata marked active.
pub fn add_approved_hook(
    registry: &mut HookRegistry,
    hook_program: Option<&AccountView>,
    hook_program_id: Pubkey,
    hook_type: HookType,
    name: String,
    description: String,
    risk_level: RiskLevel,
    now: i64,
) -> (r: Result<(), RegistryError>)
    ensures
        match old(registry)@.approval_refusal(
            hook_program_id,
            match hook_program {
                Some(program) => Some(program.executable),
                None => None,
            },
        ) {
            Some(e) => r == Err::<(), RegistryError>(e) && final(registry)@ == old(registry)@,
            None => r is Ok && final(registry)@ == old(registry)@.with_hook(
                new_metadata(hook_program_id, hook_type, name, description, risk_level, now),
            ),
        },
        old(registry)@.wf() ==> final(registry)@.wf(),
        old(registry)@.approved_hooks.len() >= old(registry).max_hooks && !old(registry)@.is_listed(
            hook_program_id,
        ) ==> r == Err::<(), RegistryError>(RegistryError::RegistryFull),
        r is Ok ==> final(registry)@.is_listed(hook_program_id) && final(registry)@.is_active(hook_program_id)
            && final(registry)@.is_approved(hook_program_id),
{
    if contains(&registry.approved_hooks, &hook_program_id) {
        return Err(RegistryError::HookAlreadyApproved);
    }
    if registry.approved_hooks.len() >= registry.max_hooks as usize {
        return Err(RegistryError::RegistryFull);
    }
    if let Some(program) = hook_program {
        if !program.executable {
            return Err(RegistryError::InvalidHookProgram);
        }
    }
    registry.approved_hooks.push(hook_program_id);
    let metadata = HookMetadata {
        program_id: hook_program_id,
        hook_type,
        name,
        description,
        risk_level,
        approved_at: now,
        last_validated_at: 0,
        total_validations: 0,
        total_failures: 0,
        is_active: true,
    };
    registry.hook_metadata.push(metadata);
    registry.total_hooks = registry.total_hooks.saturating_add(1);
    assert(final(registry)@ =~= old(registry)@.with_hook(
        new_metadata(hook_program_id, hook_type, name, description, risk_level, now),
    ));
    proof {
        lemma_new_hook_passes(
            old(registry)@,
            new_metadata(hook_program_id, hook_type, name, description, risk_level, now),
        );
        if old(registry)@.wf() {
            lemma_with_hook_wf(
                old(registry)@,
                new_metadata(hook_program_id, hook_type, name, description, risk_level, now),
                None,
            );
        }
    }
    Ok(())
}

/// `keys` without any occurrence of `key`.
fn retain_others(keys: &Vec<Pubkey>, key: &Pubkey) -> (kept: Vec<Pubkey>)
    ensures
        kept@ == without_all(keys@, *key),
{
    let mut kept: Vec<Pubkey> = Vec::new();
    let mut i: usize = 0;
    proof {
        lemma_without_all_push(Seq::empty(), *key, *key);
        assert(keys@.take(0) == Seq::<Pubkey>::empty());
    }
    while i < keys.len()
        invariant
            i <= keys.len(),
            kept@ == without_all(keys@.take(i as int), *key),
        decreases keys.len() - i,
    {
        proof {
            lemma_without_all_push(keys@.take(i as int), *key, keys@[i as int]);
            assert(keys@.take(i as int).push(keys@[i as int]) == keys@.take(i + 1));
        }
        if keys[i] != *key {
            kept.push(keys[i]);
        }
        i += 1;
    }
    assert(keys@.take(keys.len() as int) == keys@);
    kept
}

/// Removes a hook program.  It is refused where the program is not listed.
/// The program leaves the list; the metadata that speaks for it is marked
/// inactive and stays.
pub fn remove_hook(registry: &mut HookRegistry, hook_program_id: Pubkey) -> (r: Result<(), RegistryError>)
    ensures
        match old(registry)@.removal_refusal(hook_program_id) {
            Some(e) => r == Err::<(), RegistryError>(e) && final(registry)@ == old(registry)@,
            None => r is Ok && final(registry)@ == old(registry)@.without_hook(hook_program_id),
        },
        !final(registry)@.is_listed(hook_program_id),
        old(registry)@.wf() ==> final(registry)@.wf(),
{
    if !contains(&registry.approved_hooks, &hook_program_id) {
        return Err(RegistryError::HookNotFound);
    }
    proof {
        lemma_without_all_push(registry.approved_hooks@, hook_program_id, hook_program_id);
        if registry@.wf() {
            lemma_without_hook_wf(registry@, hook_program_id);
        }
    }
    let kept = retain_others(&registry.approved_hooks, &hook_program_id);
    registry.approved_hooks = kept;
    if let Some(i) = find_metadata(&registry.hook_metadata, &hook_program_id) {
        registry.hook_metadata[i].is_active = false;
    }
    registry.total_hooks = registry.total_hooks.saturating_sub(1);
    assert(final(registry)@ =~= old(registry)@.without_hook(hook_program_id));
    Ok(())
}

/// Marks the metadata that speaks for a hook program as active or not.  It
/// is refused where the program has no metadata.
pub fn set_hook_active(registry: &mut HookRegistry, hook_program_id: Pubkey, is_active: bool) -> (r: Result<
    (),
    RegistryError,
>)
    ensures
        if has_entry(old(registry)@.hook_metadata, hook_program_id) {
            r is Ok && final(registry)@ == old(registry)@.with_active(hook_program_id, is_active)
        } else {
            r == Err::<(), RegistryError>(RegistryError::HookNotFound) && final(registry)@ == old(registry)@
        },
        old(registry)@.wf() ==> final(registry)@.wf(),
{
    match find_metadata(&registry.hook_metadata, &hook_program_id) {
        Some(i) => {
            registry.hook_metadata[i].is_active = is_active;
            assert(final(registry)@ =~= old(registry)@.with_active(hook_program_id, is_active));
            proof {
                if old(registry)@.wf() {
                    lemma_with_active_wf(old(registry)@, hook_program_id, is_active);
                }
            }
            Ok(())
        },
        None => Err(RegistryError::HookNotFound),
    }
}

/// Enables or disables the registry as a whole.
pub fn set_registry_enabled(registry: &mut HookRegistry, enabled: bool)
    ensures
        final(registry)@ == (HookRegistryView { is_enabled: enabled, ..old(registry)@ }),
        old(registry)@.wf() ==> final(registry)@.wf(),
{
    registry.is_enabled = enabled;
}

/// Whether a hook program passes: always while the registry is disabled,
/// else where the program is listed and its metadata is marked active.
pub fn is_hook_approved(registry: &HookRegistry, hook_program_id: &Pubkey) -> (r: bool)
    ensures
        r == registry@.is_approved(*hook_program_id),
        !registry.is_enabled ==> r,
{
    if !registry.is_enabled {
        return true;
    }
    let is_approved = contains(&registry.approved_hooks, hook_program_id);
    let is_active = match find_metadata(&registry.hook_metadata, hook_program_id) {
        Some(i) => registry.hook_metadata[i].is_active,
        None => false,
    };
    is_approved && is_active
}

/// Counts one validation of a hook program, as passed or as rejected, in
/// the totals and in the metadata that speaks for the program, and says
/// whether the program passes: always while the registry is disabled, else
/// where it is listed, marked active, and the validation was passed.  The
/// counting does not depend on the answer; a counter that has reached its
/// largest value stays there.
pub fn validate_hook_with_stats(
    registry: &mut HookRegistry,
    hook_program_id: Pubkey,
    validation_successful: bool,
    now: i64,
) -> (r: bool)
    ensures
        final(registry)@ == old(registry)@.with_validation(hook_program_id, validation_successful, now),
        r == (!old(registry).is_enabled || (old(registry)@.is_approved(hook_program_id)
            && validation_successful)),
        !old(registry).is_enabled ==> r,
        old(registry)@.wf() ==> final(registry)@.wf(),
{
    if validation_successful {
        registry.total_validations = registry.total_validations.saturating_add(1);
    } else {
        registry.total_rejections = registry.total_rejections.saturating_add(1);
    }
    let found = find_metadata(&registry.hook_metadata, &hook_program_id);
    if let Some(i) = found {
        registry.hook_metadata[i].last_validated_at = now;
        if validation_successful {
            let validations = registry.hook_metadata[i].total_validations;
            registry.hook_metadata[i].total_validations = validations.saturating_add(1);
        } else {
            let failures = registry.hook_metadata[i].total_failures;
            registry.hook_metadata[i].total_failures = failures.saturating_add(1);
        }
    }
    assert(final(registry)@ =~= old(registry)@.with_validation(hook_program_id, validation_successful, now));
    proof {
        if old(registry)@.wf() {
            lemma_with_validation_wf(old(registry)@, hook_program_id, validation_successful, now);
        }
    }
    if !registry.is_enabled {
        return true;
    }
    let is_approved = contains(&registry.approved_hooks, &hook_program_id);
    let is_active = match found {
        Some(i) => registry.hook_metadata[i].is_active,
        None => false,
    };
    is_approved && is_active && validation_successful
}

/// The metadata that speaks for a hook program, where there is one.
pub fn get_hook_metadata<'a>(registry: &'a HookRegistry, hook_program_id: &Pubkey) -> (r: Option<&'a HookMetadata>)
    ensures
        match r {
            Some(entry) => entry_of(registry@.hook_metadata, *hook_program_id) == Some(*entry),
            None => entry_of(registry@.hook_metadata, *hook_program_id) is None,
        },
{
    match find_metadata(&registry.hook_metadata, hook_program_id) {
        Some(i) => Some(&registry.hook_metadata[i]),
        None => None,
    }
}

/// The classes by which the active hook programs are counted.
#[derive(Clone, Copy, Debug, PartialEq, Eq, Structural)]
pub enum HookClass {
    /// Active programs of type `KYC`.
    Kyc,
    /// Active programs of type `Whitelist`.
    Whitelist,
    /// Active programs of any other type.
    Other,
    /// All active programs.
    Active,
}

/// Whether an entry counts in a class.
pub open spec fn in_class(entry: HookMetadata, class: HookClass) -> bool {
    entry.is_active && match class {
        HookClass::Kyc => entry.hook_type == HookType::KYC,
        HookClass::Whitelist => entry.hook_type == HookType::Whitelist,
        HookClass::Other => entry.hook_type != HookType::KYC && entry.hook_type != HookType::Whitelist,
        HookClass::Active => true,
    }
}

/// The number of entries that count in a class.
pub open spec fn count_in_class(metadata: Seq<HookMetadata>, class: HookClass) -> nat
    decreases metadata.len(),
{
    if metadata.len() == 0 {
        0
    } else {
        count_in_class(metadata.drop_last(), class) + if in_class(metadata.last(), class) {
            1nat
        } else {
            0nat
        }
    }
}

/// What is reported of a registry.
#[derive(Clone, Copy, Debug, PartialEq, Eq)]
pub struct RegistryStats {
    pub total_hooks: u32,
    pub max_hooks: u16,
    pub total_validations: u64,
    pub total_rejections: u64,
    pub is_enabled: bool,
    pub created_at: i64,
    pub kyc_count: usize,
    pub whitelist_count: usize,
    pub custom_count: usize,
    pub active_count: usize,
}

/// The counters of a registry, and its active hook programs counted by type.
pub fn get_registry_stats(registry: &HookRegistry) -> (stats: RegistryStats)
    ensures
        stats.total_hooks == registry.total_hooks,
        stats.max_hooks == registry.max_hooks,
        stats.total_validations == registry.total_validations,
        stats.total_rejections == registry.total_rejections,
        stats.is_enabled == registry.is_enabled,
        stats.created_at == registry.created_at,
        stats.kyc_count == count_in_class(registry@.hook_metadata, HookClass::Kyc),
        stats.whitelist_count == count_in_class(registry@.hook_metadata, HookClass::Whitelist),
        stats.custom_count == count_in_class(registry@.hook_metadata, HookClass::Other),
        stats.active_count == count_in_class(registry@.hook_metadata, HookClass::Active),
        stats.active_count == stats.kyc_count + stats.whitelist_count + stats.custom_count,
{
    let mut kyc_count: usize = 0;
    let mut whitelist_count: usize = 0;
    let mut custom_count: usize = 0;
    let mut active_count: usize = 0;
    let mut i: usize = 0;
    let ghost metadata = registry.hook_metadata@;
    assert(metadata.take(0).len() == 0);
    while i < registry.hook_metadata.len()
        invariant
            i <= registry.hook_metadata.len(),
            metadata == registry.hook_metadata@,
            kyc_count == count_in_class(metadata.take(i as int), HookClass::Kyc),
            whitelist_count == count_in_class(metadata.take(i as int), HookClass::Whitelist),
            custom_count == count_in_class(metadata.take(i as int), HookClass::Other),
            active_count == count_in_class(metadata.take(i as int), HookClass::Active),
            active_count == kyc_count + whitelist_count + custom_count,
            active_count <= i,
        decreases registry.hook_metadata.len() - i,
    {
        proof {
            assert(metadata.take(i + 1).drop_last() == metadata.take(i as int));
            assert(metadata.take(i + 1).last() == metadata[i as int]);
        }
        let entry = &registry.hook_metadata[i];
        if entry.is_active {
            active_count += 1;
            match entry.hook_type {
                HookType::KYC => { kyc_count += 1; },
                HookType::Whitelist => { whitelist_count += 1; },
                _ => { custom_count += 1; },
            }
        }
        i += 1;
    }
    assert(metadata.take(metadata.len() as int) == metadata);
    RegistryStats {
        total_hooks: registry.total_hooks,
        max_hooks: registry.max_hooks,
        total_validations: registry.total_validations,
        total_rejections: registry.total_rejections,
        is_enabled: registry.is_enabled,
        created_at: registry.created_at,
        kyc_count,
        whitelist_count,
        custom_count,
        active_count,
    }
}

/// The metadata under which a hook program of a batch is approved.
pub open spec fn bulk_metadata(hook: BulkHookData, now: i64) -> HookMetadata {
    new_metadata(hook.program_id, hook.hook_type, hook.name, hook.description, hook.risk_level, now)
}

impl HookRegistryView {
    /// The registry after the programs of a batch were approved one by one,
    /// those left out that were listed when their turn came.
    pub open spec fn with_batch(self, hooks: Seq<BulkHookData>, now: i64) -> HookRegistryView
        decreases hooks.len(),
    {
        if hooks.len() == 0 {
            self
        } else {
            let before = self.with_batch(hooks.drop_last(), now);
            if before.is_listed(hooks.last().program_id) {
                before
            } else {
                before.with_hook(bulk_metadata(hooks.last(), now))
            }
        }
    }
}

/// Approves a batch of hook programs.  The batch is refused as a whole
/// where the listed programs and the batch together are more than the
/// maximum, before it is looked at which of them are listed already.  Of an
/// accepted batch the programs are approved in order; one that is listed
/// when its turn comes is passed over.
pub fn bulk_approve_hooks(registry: &mut HookRegistry, hooks_data: Vec<BulkHookData>, now: i64) -> (r: Result<
    (),
    RegistryError,
>)
    ensures
        if old(registry)@.approved_hooks.len() + hooks_data.len() <= old(registry).max_hooks {
            r is Ok && final(registry)@ == old(registry)@.with_batch(hooks_data@, now)
        } else {
            r == Err::<(), RegistryError>(RegistryError::RegistryFull) && final(registry)@ == old(registry)@
        },
        old(registry)@.wf() ==> final(registry)@.wf(),
{
    let max = registry.max_hooks as usize;
    if registry.approved_hooks.len() > max || hooks_data.len() > max - registry.approved_hooks.len() {
        return Err(RegistryError::RegistryFull);
    }
    let mut i: usize = 0;
    assert(hooks_data@.take(0).len() == 0);
    while i < hooks_data.len()
        invariant
            i <= hooks_data.len(),
            registry@ == old(registry)@.with_batch(hooks_data@.take(i as int), now),
            registry@.approved_hooks.len() <= old(registry)@.approved_hooks.len() + i,
            old(registry)@.approved_hooks.len() + hooks_data.len() <= old(registry).max_hooks,
            registry.max_hooks == old(registry).max_hooks,
            old(registry)@.wf() ==> registry@.wf(),
        decreases hooks_data.len() - i,
    {
        proof {
            assert(hooks_data@.take(i + 1).drop_last() == hooks_data@.take(i as int));
            assert(hooks_data@.take(i + 1).last() == hooks_data@[i as int]);
        }
        let ghost before = registry@;
        let hook = &hooks_data[i];
        if !contains(&registry.approved_hooks, &hook.program_id) {
            registry.approved_hooks.push(hook.program_id);
            let metadata = HookMetadata {
                program_id: hook.program_id,
                hook_type: hook.hook_type,
                name: hook.name.clone(),
                description: hook.description.clone(),
                risk_level: hook.risk_level,
                approved_at: now,
                last_validated_at: 0,
                total_validations: 0,
                total_failures: 0,
                is_active: true,
            };
            registry.hook_metadata.push(metadata);
            registry.total_hooks = registry.total_hooks.saturating_add(1);
            assert(registry@ =~= before.with_hook(bulk_metadata(*hook, now)));
            proof {
                if before.wf() {
                    lemma_with_hook_wf(before, bulk_metadata(*hook, now), None);
                }
            }
        }
        i += 1;
    }
    assert(hooks_data@.take(hooks_data.len() as int) == hooks_data@);
    Ok(())
}

/// An approval or a removal, as the registry is asked for it.
pub enum RegistryOp {
    /// The approval of the program of `entry`; `executable` says whether a
    /// hook program was handed in, and whether it can be run.
    Approve { entry: HookMetadata, executable: Option<bool> },
    /// The removal of a program.
    Remove { id: Pubkey },
}

impl HookRegistryView {
    /// The registry after an operation that it accepts; nothing where it
    /// refuses the operation.
    pub open spec fn apply(self, op: RegistryOp) -> Option<HookRegistryView> {
        match op {
            RegistryOp::Approve { entry, executable } => if self.approval_refusal(entry.program_id, executable) is None {
                Some(self.with_hook(entry))
            } else {
                None
            },
            RegistryOp::Remove { id } => if self.removal_refusal(id) is None {
                Some(self.without_hook(id))
            } else {
                None
            },
        }
    }

    /// The registry after a sequence of operations all of which it accepts;
    /// nothing where it refuses one of them.
    pub open spec fn apply_all(self, ops: Seq<RegistryOp>) -> Option<HookRegistryView>
        decreases ops.len(),
    {
        if ops.len() == 0 {
            Some(self)
        } else {
            match self.apply_all(ops.drop_last()) {
                Some(before) => before.apply(ops.last()),
                None => None,
            }
        }
    }
}

/// The number of approvals of `id` among `ops`.
pub open spec fn approvals_of(ops: Seq<RegistryOp>, id: Pubkey) -> nat
    decreases ops.len(),
{
    if ops.len() == 0 {
        0
    } else {
        approvals_of(ops.drop_last(), id) + match ops.last() {
            RegistryOp::Approve { entry, executable } => if entry.program_id == id {
                1nat
            } else {
                0nat
            },
            RegistryOp::Remove { id: _ } => 0nat,
        }
    }
}

/// The number of removals of `id` among `ops`.
pub open spec fn removals_of(ops: Seq<RegistryOp>, id: Pubkey) -> nat
    decreases ops.len(),
{
    if ops.len() == 0 {
        0
    } else {
        removals_of(ops.drop_last(), id) + match ops.last() {
            RegistryOp::Approve { entry, executable } => 0nat,
            RegistryOp::Remove { id: removed } => if removed == id {
                1nat
            } else {
                0nat
            },
        }
    }
}

/// One if `id` is listed, else zero.
pub open spec fn listed_count(registry: HookRegistryView, id: Pubkey) -> int {
    if registry.is_listed(id) {
        1
    } else {
        0
    }
}

/// After any sequence of approvals and removals that a well-formed
/// registry accepts, one after the other, the registry is well-formed, so
/// that it never lists more programs than its maximum, and a program is
/// listed exactly when it was approved more often than removed, counting
/// one approval for a program that was listed at the start.
pub proof fn lemma_listed_iff_more_approvals(start: HookRegistryView, ops: Seq<RegistryOp>, id: Pubkey)
    requires
        start.wf(),
        start.apply_all(ops) is Some,
    ensures
        start.apply_all(ops)->0.wf(),
        listed_count(start, id) + approvals_of(ops, id) - removals_of(ops, id) == listed_count(
            start.apply_all(ops)->0,
            id,
        ),
        start.apply_all(ops)->0.is_listed(id) <==> listed_count(start, id) + approvals_of(ops, id)
            > removals_of(ops, id),
    decreases ops.len(),
{
    if ops.len() > 0 {
        let front = ops.drop_last();
        lemma_listed_iff_more_approvals(start, front, id);
        let before = start.apply_all(front)->0;
        match ops.last() {
            RegistryOp::Approve { entry, executable } => {
                lemma_with_hook_wf(before, entry, executable);
                let after = before.with_hook(entry);
                assert(after.approved_hooks.last() == entry.program_id);
                assert forall|k: Pubkey| after.is_listed(k) <==> (before.is_listed(k) || k == entry.program_id) by {
                    if before.is_listed(k) {
                        let i = choose|i: int| 0 <= i < before.approved_hooks.len() && before.approved_hooks[i] == k;
                        assert(after.approved_hooks[i] == k);
                    }
                    if k == entry.program_id {
                        assert(after.approved_hooks[after.approved_hooks.len() - 1] == k);
                    }
                }
            },
            RegistryOp::Remove { id: removed } => {
                lemma_without_hook_wf(before, removed);
                lemma_without_all(before.approved_hooks, removed);
                lemma_without_first(before.approved_hooks, removed);
            },
        }
    }
}

/// A registry that lists as many programs as its maximum refuses the
/// approval of one more as full, whatever is handed in with it.
pub proof fn lemma_full_registry_refuses(registry: HookRegistryView, entry: HookMetadata, executable: Option<bool>)
    requires
        registry.approved_hooks.len() >= registry.max_hooks,
        !registry.is_listed(entry.program_id),
    ensures
        registry.approval_refusal(entry.program_id, executable) == Some(RegistryError::RegistryFull),
        registry.apply(RegistryOp::Approve { entry, executable }) is None,
{
}

/// After a program was removed it is not listed, so that its removal is
/// refused as not found until it is approved again.
pub proof fn lemma_removed_is_not_listed(registry: HookRegistryView, id: Pubkey)
    requires
        registry.is_listed(id),
    ensures
        registry.removal_refusal(id) is None,
        !registry.without_hook(id).is_listed(id),
        registry.without_hook(id).removal_refusal(id) == Some(RegistryError::HookNotFound),
        registry.without_hook(id).apply(RegistryOp::Remove { id }) is None,
{
    lemma_without_all_push(registry.approved_hooks, id, id);
}

/// While the registry is disabled every program passes, whether it is
/// listed or not and whatever its metadata says.
pub proof fn lemma_disabled_registry_approves(registry: HookRegistryView, id: Pubkey)
    requires
        !registry.is_enabled,
    ensures
        registry.is_approved(id),
{
}

/// A program that was approved under metadata marked active is listed,
/// is spoken for by that metadata, and passes, whether or not it was ever
/// approved before.
pub proof fn lemma_new_hook_passes(registry: HookRegistryView, entry: HookMetadata)
    ensures
        registry.with_hook(entry).is_listed(entry.program_id),
        entry_of(registry.with_hook(entry).hook_metadata, entry.program_id) == Some(entry),
        entry.is_active ==> registry.with_hook(entry).is_active(entry.program_id)
            && registry.with_hook(entry).is_approved(entry.program_id),
{
    let after = registry.with_hook(entry);
    let last = registry.hook_metadata.len() as int;
    assert(after.approved_hooks[registry.approved_hooks.len() as int] == entry.program_id);
    assert(after.hook_metadata[last].program_id == entry.program_id);
    assert(is_last_entry(after.hook_metadata, entry.program_id, last));
    lemma_last_entry(after.hook_metadata, entry.program_id);
}

/// A program that was removed does not pass while the registry is
/// enabled.
pub proof fn lemma_removed_hook_fails(registry: HookRegistryView, id: Pubkey)
    requires
        registry.is_enabled,
    ensures
        !registry.without_hook(id).is_approved(id),
{
    lemma_without_all_push(registry.approved_hooks, id, id);
}

/// The mark that is set for a program with metadata is the mark that is
/// read for it, and no other program's mark changes.
pub proof fn lemma_mark_is_read_back(registry: HookRegistryView, id: Pubkey, is_active: bool, other: Pubkey)
    requires
        has_entry(registry.hook_metadata, id),
    ensures
        registry.with_active(id, is_active).is_active(id) == is_active,
        other != id ==> registry.with_active(id, is_active).is_active(other) == registry.is_active(other),
{
    lemma_last_entry(registry.hook_metadata, id);
    let at = last_entry(registry.hook_metadata, id);
    let before = registry.hook_metadata;
    let after = registry.with_active(id, is_active).hook_metadata;
    assert forall|j: int| 0 <= j < before.len() implies #[trigger] after[j].program_id == before[j].program_id by {}
    assert(after[at].program_id == id);
    assert(is_last_entry(after, id, at));
    lemma_last_entry(after, id);
    if other != id {
        if has_entry(before, other) {
            lemma_last_entry(before, other);
            let f = last_entry(before, other);
            assert(after[f].program_id == other);
            assert(is_last_entry(after, other, f));
            lemma_last_entry(after, other);
            assert(after[f] == before[f]);
        } else {
            if has_entry(after, other) {
                let j = choose|j: int| 0 <= j < after.len() && #[trigger] after[j].program_id == other;
                assert(before[j].program_id == other);
            }
        }
    }
}

} // verus!
