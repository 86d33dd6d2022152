//! What cloud saves promise: the provider that is set up is the one chosen, with what was typed.
use crate::cloud::{
    provider_chips, CloudSettings, CloudView, HookButton, HookStep, ProviderForm, S3Credentials,
};
use crate::laws::text::{is_tight, tight_text_stays};
use crate::state::{CloudForm, CloudProvider, DrydockApp};
use crate::text::trimmed;
use crate::types::Reply;
use vstd::prelude::*;

verus! {

/// Whether no field of the form but the secret has white space around it.
pub open spec fn is_tidy(form: CloudForm) -> bool {
    &&& is_tight(form.folder_path@)
    &&& is_tight(form.local_path@)
    &&& is_tight(form.account_id@)
    &&& is_tight(form.endpoint@)
    &&& is_tight(form.region@)
    &&& is_tight(form.access_key_id@)
    &&& is_tight(form.bucket@)
    &&& is_tight(form.key_prefix@)
}

/// The credentials in some settings.
pub open spec fn credentials_in(settings: Option<CloudSettings>) -> Option<S3Credentials> {
    match settings {
        Some(CloudSettings::R2(credentials)) => Some(credentials),
        Some(CloudSettings::S3(credentials)) => Some(credentials),
        _ => None,
    }
}

/// What is typed into the form arrives in the settings, each text under its own name, and the
/// settings are for the provider that is chosen.
pub proof fn typed_texts_arrive(form: &CloudForm, settings: Option<CloudSettings>)
    requires
        call_ensures(CloudForm::to_settings, (form,), settings),
        is_tidy(*form),
    ensures
        form.provider == CloudProvider::Folder ==> (settings matches Some(CloudSettings::Folder {
            path,
        }) && path@ == form.folder_path@),
        form.provider == CloudProvider::LocalOnly ==> (
        settings matches Some(CloudSettings::LocalOnly { path }) && path@ == form.local_path@),
        form.provider == CloudProvider::R2 ==> settings matches Some(CloudSettings::R2(_)),
        form.provider == CloudProvider::S3 ==> settings matches Some(CloudSettings::S3(_)),
        credentials_in(settings) is Some <==> form.provider == CloudProvider::R2 || form.provider
            == CloudProvider::S3,
        credentials_in(settings) matches Some(credentials) ==> {
            &&& credentials.account_id@ == form.account_id@
            &&& credentials.endpoint@ == form.endpoint@
            &&& credentials.region@ == form.region@
            &&& credentials.access_key_id@ == form.access_key_id@
            &&& credentials.secret_access_key@ == form.secret_access_key@
            &&& credentials.bucket@ == form.bucket@
            &&& credentials.key_prefix@ == form.key_prefix@
        },
{
    tight_text_stays(form.folder_path@);
    tight_text_stays(form.local_path@);
    tight_text_stays(form.account_id@);
    tight_text_stays(form.endpoint@);
    tight_text_stays(form.region@);
    tight_text_stays(form.access_key_id@);
    tight_text_stays(form.bucket@);
    tight_text_stays(form.key_prefix@);
}

/// Each field of the credentials goes by its own field of the form and by no other: of two forms,
/// the fields that agree once trimmed agree in the credentials, and those that differ differ.
pub proof fn each_field_goes_by_its_own(
    one: &CloudForm,
    other: &CloudForm,
    first: Option<CloudSettings>,
    second: Option<CloudSettings>,
)
    requires
        call_ensures(CloudForm::to_settings, (one,), first),
        call_ensures(CloudForm::to_settings, (other,), second),
        credentials_in(first) is Some,
        credentials_in(second) is Some,
    ensures
        ({
            let a = credentials_in(first)->0;
            let b = credentials_in(second)->0;
            &&& a.account_id@ == b.account_id@ <==> trimmed(one.account_id@) == trimmed(
                other.account_id@,
            )
            &&& a.endpoint@ == b.endpoint@ <==> trimmed(one.endpoint@) == trimmed(other.endpoint@)
            &&& a.region@ == b.region@ <==> trimmed(one.region@) == trimmed(other.region@)
            &&& a.access_key_id@ == b.access_key_id@ <==> trimmed(one.access_key_id@) == trimmed(
                other.access_key_id@,
            )
            &&& a.secret_access_key@ == b.secret_access_key@ <==> one.secret_access_key@
                == other.secret_access_key@
            &&& a.bucket@ == b.bucket@ <==> trimmed(one.bucket@) == trimmed(other.bucket@)
            &&& a.key_prefix@ == b.key_prefix@ <==> trimmed(one.key_prefix@) == trimmed(
                other.key_prefix@,
            )
        }),
{
}

/// The page lets a form be saved exactly where the form gives settings, and offers a sign-in
/// exactly where it does not.
pub proof fn a_form_is_saved_or_signed_in_with(
    app: &DrydockApp,
    view: CloudView,
    settings: Option<CloudSettings>,
)
    requires
        call_ensures(DrydockApp::cloud_page, (app,), view),
        call_ensures(CloudForm::to_settings, (&app.cloud.form,), settings),
    ensures
        view.can_save <==> settings is Some,
        view.can_save <==> !(view.form matches ProviderForm::SignIn(_)),
        view.form matches ProviderForm::SignIn(busy) ==> busy == app.side_jobs.cloud_oauth,
        settings matches Some(CloudSettings::Folder { .. }) <==> view.form == ProviderForm::Folder,
        settings matches Some(CloudSettings::LocalOnly { .. }) <==> view.form
            == ProviderForm::LocalFolder,
        settings matches Some(CloudSettings::R2(_)) <==> view.form == ProviderForm::Account,
        settings matches Some(CloudSettings::S3(_)) <==> view.form == ProviderForm::Endpoint,
{
}

/// Every provider has a chip, and no two chips are for one provider or of one name.
pub proof fn every_provider_has_a_chip(
    chips: [(CloudProvider, &'static str); 6],
    provider: CloudProvider,
)
    requires
        call_ensures(provider_chips, (), chips),
    ensures
        exists|i: int| 0 <= i < 6 && (#[trigger] chips@[i]).0 == provider,
        forall|i: int, j: int|
            0 <= i < j < 6 ==> (#[trigger] chips@[i]).0 != (#[trigger] chips@[j]).0,
{
    assert(chips@[0].0 == CloudProvider::Folder);
    assert(chips@[1].0 == CloudProvider::LocalOnly);
    assert(chips@[2].0 == CloudProvider::GoogleDrive);
    assert(chips@[3].0 == CloudProvider::OneDrive);
    assert(chips@[4].0 == CloudProvider::R2);
    assert(chips@[5].0 == CloudProvider::S3);
}

/// What was read of the hook and its configuration is what the page shows: the provider, whether
/// the hook is there, and whether it is to be installed or can be taken away. While the hook is
/// being fetched none of its buttons can be pressed.
pub proof fn the_page_shows_what_was_read(
    app: &mut DrydockApp,
    installed: bool,
    provider: Option<CloudProvider>,
    after: &DrydockApp,
    view: CloudView,
)
    requires
        call_ensures(DrydockApp::refresh_cloud_state, (app, installed, provider), ()),
        *after == *final(app),
        call_ensures(DrydockApp::cloud_page, (after,), view),
    ensures
        view.active == provider,
        view.hook is Some <==> old(app).steam.root is Some,
        view.hook matches Some(card) ==> {
            &&& card.buttons@.contains(HookButton::Install) <==> !installed
            &&& card.buttons@.contains(HookButton::Uninstall) <==> installed
            &&& card.buttons@.contains(HookButton::Update) <==> installed
            &&& card.enabled <==> !old(app).side_jobs.cloud_download
        },
        final(app).cloud.form == old(app).cloud.form,
{
    if let Some(card) = view.hook {
        if installed {
            assert(card.buttons@[0] == HookButton::Uninstall);
            assert(card.buttons@[1] == HookButton::Update);
        } else {
            assert(card.buttons@[0] == HookButton::Install);
        }
    }
}

/// The hook is fetched once at a time: after a start that asks for it the next one does not, until
/// an answer or the loss of the job is heard.
pub proof fn the_hook_is_fetched_once(
    app: &mut DrydockApp,
    first: bool,
    again: &mut DrydockApp,
    second: bool,
    polled: &mut DrydockApp,
    reply: Reply<Result<String, String>>,
    step: HookStep,
    later: &mut DrydockApp,
    third: bool,
)
    requires
        call_ensures(DrydockApp::start_cloud_download, (app,), first),
        *old(again) == *final(app),
        call_ensures(DrydockApp::start_cloud_download, (again,), second),
        *old(polled) == *final(again),
        call_ensures(DrydockApp::poll_cloud_download, (polled, reply), step),
        *old(later) == *final(polled),
        call_ensures(DrydockApp::start_cloud_download, (later,), third),
    ensures
        !second,
        *final(again) == *final(app),
        third <==> !(reply is Waiting),
        step.refresh <==> reply is Done,
        step.deploy is Some <==> (reply matches Reply::Done(Ok(_)) && old(app).steam.root is Some),
        step.deploy matches Some(order) ==> Some(order.root) == old(app).steam.root && reply
            == Reply::<Result<String, String>>::Done(Ok(order.version)),
{
}

/// One sign-in runs at a time, and every answer has the state read anew.
pub proof fn one_sign_in_at_a_time(
    app: &mut DrydockApp,
    name: &str,
    first: bool,
    again: &mut DrydockApp,
    second: bool,
    polled: &mut DrydockApp,
    reply: Reply<Result<(), String>>,
    refresh: bool,
)
    requires
        call_ensures(DrydockApp::start_cloud_oauth, (app, name), first),
        *old(again) == *final(app),
        call_ensures(DrydockApp::start_cloud_oauth, (again, name), second),
        *old(polled) == *final(again),
        call_ensures(DrydockApp::poll_cloud_oauth, (polled, reply), refresh),
    ensures
        first <==> !old(app).side_jobs.cloud_oauth,
        !second,
        final(app).side_jobs.cloud_oauth,
        refresh <==> reply is Done,
        final(polled).side_jobs.cloud_oauth <==> reply is Waiting,
        final(polled).cloud == old(app).cloud,
        reply matches Reply::Done(Err(_)) ==> final(polled).line.error,
        reply matches Reply::Done(Ok(_)) ==> !final(polled).line.error,
{
}

} // verus!
