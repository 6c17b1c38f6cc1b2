//! Creating, changing, deleting and activating profiles. Each plan is the next
//! configuration, which takes effect once it is persisted.
use crate::daemon::errors::{
    conflict, invalid_configuration, validate_supported_config, validate_supported_settings,
};
use crate::daemon::errors;
use crate::domain::config::{has_profile, AppConfig, AppConfigView, Profile, ProfileId, ProfileView};
use crate::domain::config;
use crate::domain::state::{ActionableError, ActionableErrorView, ErrorCode};
use crate::domain::state;
use vstd::prelude::*;

verus! {

/// Where the first profile with an identifier stands, or the number of profiles.
pub open spec fn profile_index(profiles: Seq<ProfileView>, id: ProfileId) -> nat
    decreases profiles.len(),
{
    if profiles.len() == 0 || profiles[0].id == id {
        0
    } else {
        1 + profile_index(profiles.drop_first(), id)
    }
}

proof fn lemma_profile_index(profiles: Seq<ProfileView>, id: ProfileId)
    ensures
        profile_index(profiles, id) <= profiles.len(),
        profile_index(profiles, id) < profiles.len() ==> profiles[profile_index(
            profiles,
            id,
        ) as int].id == id,
        forall|i: int| 0 <= i < profile_index(profiles, id) ==> (#[trigger] profiles[i]).id != id,
    decreases profiles.len(),
{
    if profiles.len() > 0 && profiles[0].id != id {
        let rest = profiles.drop_first();
        lemma_profile_index(rest, id);
        assert forall|i: int| 0 <= i < profile_index(profiles, id) implies (
        #[trigger] profiles[i]).id != id by {
            if i > 0 {
                assert(rest[i - 1] == profiles[i]);
            }
        }
    }
}

fn find_profile(profiles: &Vec<Profile>, id: ProfileId) -> (r: usize)
    ensures
        r == profile_index(profiles.deep_view(), id),
        r <= profiles@.len(),
{
    let ghost all = profiles.deep_view();
    proof {
        lemma_profile_index(all, id);
    }
    let mut i: usize = 0;
    while i < profiles.len() && profiles[i].id != id
        invariant
            i <= profiles.len(),
            all == profiles.deep_view(),
            forall|j: int| 0 <= j < i ==> (#[trigger] all[j]).id != id,
        decreases profiles.len() - i,
    {
        assert(all[i as int].id == profiles[i as int].id);
        i += 1;
    }
    proof {
        let n = profile_index(all, id) as int;
        if n < i {
            assert(all[n].id != id);
        } else if i < n {
            assert(all[i as int].id == profiles[i as int].id);
        }
    }
    i
}

/// The profiles without those with an identifier.
pub open spec fn without_profile(profiles: Seq<ProfileView>, id: ProfileId) -> Seq<ProfileView>
    decreases profiles.len(),
{
    if profiles.len() == 0 {
        Seq::empty()
    } else {
        let before = without_profile(profiles.drop_last(), id);
        if profiles.last().id == id {
            before
        } else {
            before.push(profiles.last())
        }
    }
}

/// The error of a profile that is not there.
pub open spec fn missing_profile() -> ActionableErrorView {
    state::plain_error(ErrorCode::InvalidRequest, "Profile not found"@)
}

fn profile_not_found() -> (r: ActionableError)
    ensures
        r.deep_view() == missing_profile(),
{
    ActionableError::new(ErrorCode::InvalidRequest, "Profile not found")
}

/// What is wrong with a profile by itself, if anything is.
pub open spec fn profile_problem(profile: ProfileView) -> Option<ActionableErrorView> {
    match config::profile_validation(profile) {
        Err(error) => Some(errors::configuration_error(error.message_text())),
        Ok(()) => errors::settings_problem(profile.settings),
    }
}

fn check_profile(profile: &Profile) -> (r: Result<(), ActionableError>)
    ensures
        r is Ok <==> profile_problem(profile.deep_view()) is None,
        r matches Err(error) ==> Some(error.deep_view()) == profile_problem(profile.deep_view()),
{
    match profile.validate() {
        Err(error) => Err(invalid_configuration(error.message().as_str())),
        Ok(()) => validate_supported_settings(&profile.settings),
    }
}

/// What is wrong with a configuration as a whole, if anything is.
pub open spec fn config_problem(next: AppConfigView) -> Option<ActionableErrorView> {
    match config::config_validation(next) {
        Err(error) => Some(errors::configuration_error(error.message_text())),
        Ok(()) => None,
    }
}

fn checked(next: AppConfig) -> (r: Result<AppConfig, ActionableError>)
    ensures
        r is Ok <==> config_problem(next.deep_view()) is None,
        r matches Ok(config) ==> config == next,
        r matches Err(error) ==> Some(error.deep_view()) == config_problem(next.deep_view()),
{
    match next.validate() {
        Err(error) => Err(invalid_configuration(error.message().as_str())),
        Ok(()) => Ok(next),
    }
}

/// Whether a plan is the next configuration where nothing stands against it,
/// and the error otherwise.
pub open spec fn planned(
    r: Result<AppConfig, ActionableError>,
    problem: Option<ActionableErrorView>,
    next: AppConfigView,
) -> bool {
    match problem {
        None => r is Ok && r->Ok_0.deep_view() == next,
        Some(error) => r is Err && r->Err_0.deep_view() == error,
    }
}

/// A configuration with one profile more.
pub open spec fn with_profile(config: AppConfigView, profile: ProfileView) -> AppConfigView {
    AppConfigView {
        profiles: config.profiles.push(profile),
        revision: config::next_revision(config.revision),
        ..config
    }
}

/// What stands against a new profile.
pub open spec fn create_problem(config: AppConfigView, profile: ProfileView) -> Option<
    ActionableErrorView,
> {
    if profile_problem(profile) is Some {
        profile_problem(profile)
    } else if config::profile_among(config.profiles, profile.id, config.profiles.len() as int) {
        Some(errors::conflict_error("A profile with this ID already exists"@))
    } else {
        config_problem(with_profile(config, profile))
    }
}

/// Plans a new profile.
pub fn create_profile(config: &AppConfig, profile: &Profile) -> (r: Result<
    AppConfig,
    ActionableError,
>)
    ensures
        planned(
            r,
            create_problem(config.deep_view(), profile.deep_view()),
            with_profile(config.deep_view(), profile.deep_view()),
        ),
{
    match check_profile(profile) {
        Ok(()) => {},
        Err(error) => return Err(error),
    }
    if has_profile(&config.profiles, profile.id, config.profiles.len()) {
        return Err(conflict("A profile with this ID already exists"));
    }
    let mut next: AppConfig = config.clone();
    next.profiles.push(profile.clone());
    next.revision = next.revision.saturating_add(1);
    assert(next.profiles.deep_view() =~= config.deep_view().profiles.push(profile.deep_view()));
    assert(next.deep_view() == with_profile(config.deep_view(), profile.deep_view()));
    checked(next)
}

/// A configuration with a profile in place of the one with its identifier.
pub open spec fn with_changed_profile(config: AppConfigView, profile: ProfileView) -> AppConfigView {
    AppConfigView {
        profiles: config.profiles.update(
            profile_index(config.profiles, profile.id) as int,
            profile,
        ),
        revision: config::next_revision(config.revision),
        ..config
    }
}

/// What stands against a change of a profile.
pub open spec fn update_problem(config: AppConfigView, profile: ProfileView) -> Option<
    ActionableErrorView,
> {
    if profile_problem(profile) is Some {
        profile_problem(profile)
    } else if profile_index(config.profiles, profile.id) >= config.profiles.len() {
        Some(missing_profile())
    } else {
        config_problem(with_changed_profile(config, profile))
    }
}

/// Plans a change of a profile.
pub fn update_profile(config: &AppConfig, profile: &Profile) -> (r: Result<
    AppConfig,
    ActionableError,
>)
    ensures
        planned(
            r,
            update_problem(config.deep_view(), profile.deep_view()),
            with_changed_profile(config.deep_view(), profile.deep_view()),
        ),
{
    match check_profile(profile) {
        Ok(()) => {},
        Err(error) => return Err(error),
    }
    let index: usize = find_profile(&config.profiles, profile.id);
    if index == config.profiles.len() {
        return Err(profile_not_found());
    }
    let mut next: AppConfig = config.clone();
    assert(next.profiles@.len() == next.deep_view().profiles.len());
    assert(config.profiles@.len() == config.deep_view().profiles.len());
    next.profiles.set(index, profile.clone());
    next.revision = next.revision.saturating_add(1);
    assert(next.profiles.deep_view() =~= config.deep_view().profiles.update(
        index as int,
        profile.deep_view(),
    ));
    assert(next.deep_view() == with_changed_profile(config.deep_view(), profile.deep_view()));
    checked(next)
}

/// A configuration without a profile; it is no longer active either.
pub open spec fn with_deleted_profile(config: AppConfigView, id: ProfileId) -> AppConfigView {
    AppConfigView {
        profiles: without_profile(config.profiles, id),
        active_profile: if config.active_profile == Some(id) {
            None
        } else {
            config.active_profile
        },
        revision: config::next_revision(config.revision),
        ..config
    }
}

/// Plans the deletion of a profile.
pub fn delete_profile(config: &AppConfig, profile_id: ProfileId) -> (r: Result<
    AppConfig,
    ActionableError,
>)
    ensures
        planned(
            r,
            if without_profile(config.deep_view().profiles, profile_id).len()
                == config.deep_view().profiles.len() {
                Some(missing_profile())
            } else {
                None
            },
            with_deleted_profile(config.deep_view(), profile_id),
        ),
{
    let mut next: AppConfig = config.clone();
    let ghost all = config.deep_view().profiles;
    assert(next.profiles@.len() == next.deep_view().profiles.len());
    let length: usize = next.profiles.len();
    let mut kept: Vec<Profile> = Vec::new();
    assert(kept.deep_view() =~= without_profile(all.take(0), profile_id));
    let mut i: usize = 0;
    while i < next.profiles.len()
        invariant
            i <= next.profiles.len(),
            length == next.profiles@.len(),
            all == next.profiles.deep_view(),
            kept.deep_view() == without_profile(all.take(i as int), profile_id),
            kept@.len() <= i,
        decreases next.profiles.len() - i,
    {
        let ghost before = kept.deep_view();
        proof {
            let seen = all.take(i + 1);
            assert(seen.drop_last() =~= all.take(i as int));
            assert(seen.last() == next.profiles[i as int].deep_view());
        }
        if next.profiles[i].id != profile_id {
            kept.push(next.profiles[i].clone());
            assert(kept.deep_view() =~= before.push(next.profiles[i as int].deep_view()));
        }
        i += 1;
    }
    assert(all.take(all.len() as int) =~= all);
    assert(kept.deep_view().len() == kept@.len());
    if kept.len() == length {
        return Err(profile_not_found());
    }
    next.profiles = kept;
    if let Some(active) = next.active_profile {
        if active == profile_id {
            next.active_profile = None;
        }
    }
    next.revision = next.revision.saturating_add(1);
    assert(next.deep_view() == with_deleted_profile(config.deep_view(), profile_id));
    Ok(next)
}

/// A configuration with a profile active: its settings, display and area are in
/// force. Without one, only the mark is taken away.
pub open spec fn with_active_profile(config: AppConfigView, id: Option<ProfileId>) -> AppConfigView {
    match id {
        None => AppConfigView {
            active_profile: None,
            revision: config::next_revision(config.revision),
            ..config
        },
        Some(id) => {
            let profile = config.profiles[profile_index(config.profiles, id) as int];
            AppConfigView {
                sync: profile.settings,
                selected_display: profile.display,
                selected_area: profile.area,
                active_profile: Some(id),
                revision: config::next_revision(config.revision),
                ..config
            }
        },
    }
}

/// What stands against activating a profile.
pub open spec fn activate_problem(config: AppConfigView, id: Option<ProfileId>) -> Option<
    ActionableErrorView,
> {
    if id matches Some(id) && profile_index(config.profiles, id) >= config.profiles.len() {
        Some(missing_profile())
    } else {
        errors::support_problem(with_active_profile(config, id))
    }
}

/// Plans the activation of a profile, or of none.
pub fn activate_profile(config: &AppConfig, profile_id: Option<ProfileId>) -> (r: Result<
    AppConfig,
    ActionableError,
>)
    ensures
        planned(
            r,
            activate_problem(config.deep_view(), profile_id),
            with_active_profile(config.deep_view(), profile_id),
        ),
{
    let mut next: AppConfig = config.clone();
    if let Some(id) = profile_id {
        let index: usize = find_profile(&config.profiles, id);
        assert(config.profiles@.len() == config.deep_view().profiles.len());
        if index == config.profiles.len() {
            return Err(profile_not_found());
        }
        let profile: Profile = config.profiles[index].clone();
        assert(config.deep_view().profiles[index as int] == profile.deep_view());
        next.sync = profile.settings;
        next.selected_display = profile.display;
        next.selected_area = profile.area;
    }
    next.active_profile = profile_id;
    next.revision = next.revision.saturating_add(1);
    assert(next.deep_view() == with_active_profile(config.deep_view(), profile_id));
    match validate_supported_config(&next) {
        Ok(()) => Ok(next),
        Err(error) => Err(error),
    }
}

proof fn lemma_without_profile(profiles: Seq<ProfileView>, id: ProfileId)
    ensures
        without_profile(profiles, id).len() <= profiles.len(),
        forall|i: int|
            0 <= i < without_profile(profiles, id).len() ==> (#[trigger] without_profile(
                profiles,
                id,
            )[i]).id != id && exists|j: int|
                0 <= j < profiles.len() && without_profile(profiles, id)[i]
                    == #[trigger] profiles[j],
        forall|j: int|
            0 <= j < profiles.len() && (#[trigger] profiles[j]).id != id ==> config::profile_among(
                without_profile(profiles, id),
                profiles[j].id,
                without_profile(profiles, id).len() as int,
            ),
    decreases profiles.len(),
{
    if profiles.len() > 0 {
        let shorter = profiles.drop_last();
        let before = without_profile(shorter, id);
        let after = without_profile(profiles, id);
        lemma_without_profile(shorter, id);
        assert forall|i: int| 0 <= i < after.len() implies (#[trigger] after[i]).id != id
            && exists|j: int| 0 <= j < profiles.len() && after[i] == #[trigger] profiles[j] by {
            if i < before.len() {
                assert(after[i] == before[i]);
                let j = choose|j: int| 0 <= j < shorter.len() && before[i] == #[trigger] shorter[j];
                assert(profiles[j] == shorter[j]);
            } else {
                assert(after[i] == profiles[profiles.len() - 1]);
            }
        }
        assert forall|j: int| 0 <= j < profiles.len() && (#[trigger] profiles[j]).id != id implies
            config::profile_among(after, profiles[j].id, after.len() as int) by {
            if j < shorter.len() {
                assert(shorter[j] == profiles[j]);
                let i = choose|i: int|
                    0 <= i < before.len() && (#[trigger] before[i]).id == shorter[j].id;
                assert(after[i] == before[i]);
            } else {
                assert(after[after.len() - 1] == profiles[j]);
            }
        }
    }
}

proof fn lemma_without_profile_distinct(profiles: Seq<ProfileView>, id: ProfileId)
    requires
        config::distinct_profiles(profiles),
    ensures
        config::distinct_profiles(without_profile(profiles, id)),
    decreases profiles.len(),
{
    if profiles.len() > 0 {
        let shorter = profiles.drop_last();
        let before = without_profile(shorter, id);
        let after = without_profile(profiles, id);
        assert(config::distinct_profiles(shorter)) by {
            assert forall|i: int, j: int| 0 <= i < j < shorter.len() implies (
            #[trigger] shorter[i]).id != (#[trigger] shorter[j]).id by {
                assert(shorter[i] == profiles[i] && shorter[j] == profiles[j]);
            }
        }
        lemma_without_profile_distinct(shorter, id);
        lemma_without_profile(shorter, id);
        assert forall|i: int, j: int| 0 <= i < j < after.len() implies (#[trigger] after[i]).id != (
        #[trigger] after[j]).id by {
            assert(after[i] == before[i]);
            if j < before.len() {
                assert(after[j] == before[j]);
            } else {
                let k = choose|k: int| 0 <= k < shorter.len() && before[i] == #[trigger] shorter[k];
                assert(shorter[k] == profiles[k]);
                assert(after[j] == profiles[profiles.len() - 1]);
            }
        }
    }
}

/// Deleting a profile keeps a configuration acceptable.
pub proof fn law_deleting_keeps_the_configuration_valid(config: AppConfigView, id: ProfileId)
    requires
        config::valid_config(config),
    ensures
        config::valid_config(with_deleted_profile(config, id)),
{
    let next = with_deleted_profile(config, id);
    lemma_without_profile(config.profiles, id);
    lemma_without_profile_distinct(config.profiles, id);
    assert forall|i: int| 0 <= i < next.profiles.len() implies !crate::text::blank(
        (#[trigger] next.profiles[i]).name,
    ) by {
        let j = choose|j: int|
            0 <= j < config.profiles.len() && next.profiles[i] == #[trigger] config.profiles[j];
        assert(!crate::text::blank(config.profiles[j].name));
    }
    if next.active_profile is Some {
        let active = next.active_profile->Some_0;
        let j = choose|j: int|
            0 <= j < config.profiles.len() && (#[trigger] config.profiles[j]).id == active;
        assert(config.profiles[j].id != id);
    }
}

/// Activating a profile that is there, or none, keeps a configuration acceptable.
pub proof fn law_activating_keeps_the_configuration_valid(
    config: AppConfigView,
    id: Option<ProfileId>,
)
    requires
        config::valid_config(config),
        id matches Some(id) ==> profile_index(config.profiles, id) < config.profiles.len(),
    ensures
        config::valid_config(with_active_profile(config, id)),
{
    if id is Some {
        lemma_profile_index(config.profiles, id->Some_0);
        let i = profile_index(config.profiles, id->Some_0) as int;
        assert(config.profiles[i].id == id->Some_0);
    }
}

/// A valid profile with an identifier of its own can always be created in an
/// acceptable configuration, and leaves it acceptable.
pub proof fn law_new_profile_is_accepted(config: AppConfigView, profile: ProfileView)
    requires
        config::valid_config(config),
        profile_problem(profile) is None,
        !config::profile_among(config.profiles, profile.id, config.profiles.len() as int),
    ensures
        create_problem(config, profile) is None,
        config::valid_config(with_profile(config, profile)),
{
    let next = with_profile(config, profile);
    assert forall|i: int, j: int| 0 <= i < j < next.profiles.len() implies (
    #[trigger] next.profiles[i]).id != (#[trigger] next.profiles[j]).id by {
        assert(next.profiles[i] == config.profiles[i]);
        if j < config.profiles.len() {
            assert(next.profiles[j] == config.profiles[j]);
        }
    }
    if next.active_profile is Some {
        let j = choose|j: int|
            0 <= j < config.profiles.len() && (#[trigger] config.profiles[j]).id
                == config.active_profile->Some_0;
        assert(next.profiles[j] == config.profiles[j]);
    }
    assert forall|i: int| 0 <= i < next.profiles.len() implies !crate::text::blank(
        (#[trigger] next.profiles[i]).name,
    ) by {
        if i < config.profiles.len() {
            assert(next.profiles[i] == config.profiles[i]);
        }
    }
    config::law_validation_passes_iff_valid(next);
}

proof fn lemma_without_absent(profiles: Seq<ProfileView>, id: ProfileId)
    requires
        !config::profile_among(profiles, id, profiles.len() as int),
    ensures
        without_profile(profiles, id) == profiles,
    decreases profiles.len(),
{
    if profiles.len() > 0 {
        let shorter = profiles.drop_last();
        assert(profiles[profiles.len() - 1].id != id);
        if config::profile_among(shorter, id, shorter.len() as int) {
            let j = choose|j: int| 0 <= j < shorter.len() && (#[trigger] shorter[j]).id == id;
            assert(profiles[j].id == id);
        }
        lemma_without_absent(shorter, id);
        assert(shorter.push(profiles.last()) =~= profiles);
    } else {
        assert(without_profile(profiles, id) =~= profiles);
    }
}

/// Deleting a profile that was just created undoes its creation, but for the
/// revision, which has moved on twice.
pub proof fn law_deleting_undoes_creating(config: AppConfigView, profile: ProfileView)
    requires
        config::valid_config(config),
        create_problem(config, profile) is None,
    ensures
        with_deleted_profile(with_profile(config, profile), profile.id) == (AppConfigView {
            revision: config::next_revision(config::next_revision(config.revision)),
            ..config
        }),
{
    let created = with_profile(config, profile);
    assert(created.profiles.drop_last() =~= config.profiles);
    lemma_without_absent(config.profiles, profile.id);
    if config.active_profile == Some(profile.id) {
        assert(config::profile_among(
            config.profiles,
            profile.id,
            config.profiles.len() as int,
        ));
    }
    assert(without_profile(created.profiles, profile.id) =~= config.profiles);
}

} // verus!
