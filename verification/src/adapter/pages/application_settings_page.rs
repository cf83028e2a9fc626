//! Screen 903, the application settings.

use vstd::prelude::*;
use crate::adapter::layouts::{SettingsModel, SettingsTemplate};
use crate::adapter::pages::screen::LoadingStatus;
use crate::adapter::presenter::ApplicationSettingsViewModel;
use crate::text::from_literal;

verus! {

/// The screen.
pub struct ApplicationSettingsPage {
    template: SettingsTemplate<ApplicationSettingsViewModel>,
}

impl ApplicationSettingsPage {
    /// The abstract state of the screen.
    pub closed spec fn model(&self) -> SettingsModel<ApplicationSettingsViewModel> {
        self.template.model()
    }

    /// The screen as it opens: titled "アプリケーション設定", no settings
    /// yet, waiting for them.
    pub open spec fn opened() -> SettingsModel<ApplicationSettingsViewModel> {
        SettingsModel::<ApplicationSettingsViewModel> {
            title: "アプリケーション設定"@,
            data: None,
            status: LoadingStatus::Loading,
        }
    }

    /// An empty settings list titled "アプリケーション設定", waiting for its data.
    pub fn new() -> (r: Self)
        ensures
            r.model() == Self::opened(),
    {
        ApplicationSettingsPage { template: SettingsTemplate::new(from_literal("アプリケーション設定")) }
    }

    /// The settings arrived.
    pub fn set_data(&mut self, view_model: ApplicationSettingsViewModel)
        ensures
            final(self).model() == (SettingsModel {
                data: Some(view_model),
                status: LoadingStatus::Loaded,
                ..old(self).model()
            }),
    {
        self.template.set_data(view_model);
    }

    /// The settings are being loaded again.
    pub fn set_loading(&mut self)
        ensures
            final(self).model() == (SettingsModel { status: LoadingStatus::Loading, ..old(self).model() }),
    {
        self.template.set_loading();
    }

    /// Loading failed.
    pub fn set_error(&mut self, error: String)
        ensures
            final(self).model() == (SettingsModel { status: LoadingStatus::Failed(error@), ..old(self).model() }),
    {
        self.template.set_error(error);
    }
}

impl Default for ApplicationSettingsPage {
    fn default() -> (r: Self)
        ensures
            r.model() == ApplicationSettingsPage::opened(),
    {
        ApplicationSettingsPage::new()
    }
}

} // verus!
