//! The settings form: its initial values from the configuration, and the
//! configuration it saves.

use vstd::prelude::*;
use crate::backend::types::{Network, opt_string_view};
use crate::config::settings::{AppConfig, NetworkConfigView, default_network_config};

verus! {

/// The editable fields of the settings screen.
#[derive(Debug)]
pub struct SettingsForm {
    pub network: Network,
    pub data_dir: String,
    /// The wallet directory; empty for the default one.
    pub wallet_dir: String,
    pub dev_mode: bool,
    pub log_level: String,
    /// The mempool strategy of the selected network.
    pub mempool_strategy: String,
}

/// The model of the section of `network` in `config`, or the default one.
pub open spec fn section_or_default(config: AppConfig, network: Network) -> NetworkConfigView {
    match config.networks.section(network) {
        Some(c) => c@,
        None => default_network_config(),
    }
}

impl SettingsForm {
    /// The form filled from a configuration.
    pub fn from_config(config: &AppConfig) -> (r: SettingsForm)
        ensures
            r.network == config.network,
            r.data_dir@ == config.data_dir@,
            r.wallet_dir@ == (match config.wallet_dir {
                Some(w) => w@,
                None => Seq::empty(),
            }),
            r.dev_mode == config.dev_mode,
            r.log_level@ == config.log_level@,
            r.mempool_strategy@ == config.mempool_strategy_spec(),
    {
        SettingsForm {
            network: config.network,
            data_dir: config.data_dir.clone(),
            wallet_dir: match &config.wallet_dir {
                Some(w) => w.clone(),
                None => String::new(),
            },
            dev_mode: config.dev_mode,
            log_level: config.log_level.clone(),
            mempool_strategy: config.mempool_strategy(),
        }
    }
}

/// Saves the form into the configuration: an empty wallet directory means
/// the default one, and the mempool strategy goes to the selected network's
/// section (created when missing, its peers kept).
pub fn apply_settings_form(config: &mut AppConfig, form: SettingsForm)
    ensures
        final(config).network == form.network,
        final(config).data_dir@ == form.data_dir@,
        opt_string_view(final(config).wallet_dir) == (if form.wallet_dir@.len() == 0 {
            None
        } else {
            Some(form.wallet_dir@)
        }),
        final(config).dev_mode == form.dev_mode,
        final(config).log_level@ == form.log_level@,
        final(config).active_section().is_some(),
        final(config).active_config().mempool_strategy == form.mempool_strategy@,
        final(config).active_config().peers == section_or_default(*old(config), form.network).peers,
        final(config).networks.same_except(old(config).networks, form.network),
        final(config).window_width == old(config).window_width,
        final(config).window_height == old(config).window_height,
        final(config).mock_mode == old(config).mock_mode,
        final(config).backend == old(config).backend,
{
    let SettingsForm { network, data_dir, wallet_dir, dev_mode, log_level, mempool_strategy } =
        form;
    config.network = network;
    config.data_dir = data_dir;
    config.wallet_dir = if wallet_dir.unicode_len() == 0 {
        None
    } else {
        Some(wallet_dir)
    };
    config.dev_mode = dev_mode;
    config.log_level = log_level;
    let section = config.network_config_mut();
    section.mempool_strategy = mempool_strategy;
}

} // verus!
