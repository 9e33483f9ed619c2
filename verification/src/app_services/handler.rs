//! The application-service actor: it opens and closes the tunnel as the
//! settings and the state of the session ask for.

use crate::app_services::service::{needs_reconnect, reconnect_messaging_service, AppServiceSettings};
use crate::errors::AppServicesErrorCodes;
use crate::events::{Event, MessagingEvent, ProvisioningEvent};
use crate::text::{decimal_u16, pair_views, parse_u16, same_text, views};
use vstd::prelude::*;

verus! {

/// What the application-service actor is made from.
#[derive(Clone, Copy, Debug, PartialEq, Eq, Structural)]
pub struct AppServiceOptions {
    /// The number the first subscription is known by.
    pub first_token: u64,
}

/// What the application-service actor is to do.
#[derive(Clone, Debug, PartialEq, Eq)]
pub enum AppServiceAction {
    /// Cancel the subscription known by this number.
    Cancel(u64),
    /// Have the messaging session set up again.
    Reconnect,
    /// Subscribe to the tunnel for `dns_name`, hand what arrives to the
    /// server on `local_port`, and know the subscription by `token`.
    Subscribe { token: u64, dns_name: String, local_port: u16 },
}

/// An action of the actor, as texts.
pub enum AppServiceActionModel {
    Cancel(u64),
    Reconnect,
    Subscribe { token: u64, dns_name: Seq<char>, local_port: u16 },
}

impl View for AppServiceAction {
    type V = AppServiceActionModel;

    open spec fn view(&self) -> AppServiceActionModel {
        match *self {
            AppServiceAction::Cancel(token) => AppServiceActionModel::Cancel(token),
            AppServiceAction::Reconnect => AppServiceActionModel::Reconnect,
            AppServiceAction::Subscribe {
                token,
                dns_name,
                local_port,
            } => AppServiceActionModel::Subscribe { token, dns_name: dns_name@, local_port },
        }
    }
}

/// The views of a list of actions.
pub open spec fn action_views(actions: Seq<AppServiceAction>) -> Seq<AppServiceActionModel> {
    Seq::new(actions.len(), |i: int| actions[i]@)
}

/// The application-service actor. Subscriptions are known by numbers; who
/// drives the actor keeps the handles that go with them.
pub struct AppServiceHandler {
    app_services_consumer_token: Option<u64>,
    sync_app_services_token: Option<u64>,
    next_token: u64,
}

/// The values new settings hold under the key `app_services.config`, in
/// the order of the settings.
pub open spec fn config_values(pairs: Seq<(Seq<char>, Seq<char>)>) -> Seq<Seq<char>>
    decreases pairs.len(),
{
    if pairs.len() == 0 {
        Seq::<Seq<char>>::empty()
    } else if pairs.last().0 == "app_services.config"@ {
        config_values(pairs.drop_last()).push(pairs.last().1)
    } else {
        config_values(pairs.drop_last())
    }
}

/// Picks from new settings the values that configure application services.
pub fn config_payloads(new_settings: &Vec<(String, String)>) -> (payloads: Vec<String>)
    ensures
        views(payloads@) == config_values(pair_views(new_settings@)),
{
    let ghost all = pair_views(new_settings@);
    let mut payloads: Vec<String> = Vec::new();
    let mut i: usize = 0;
    assert(all.take(0) =~= Seq::<(Seq<char>, Seq<char>)>::empty());
    assert(views(payloads@) =~= config_values(all.take(0)));
    while i < new_settings.len()
        invariant
            i <= new_settings.len(),
            all == pair_views(new_settings@),
            views(payloads@) == config_values(all.take(i as int)),
        decreases new_settings.len() - i,
    {
        proof {
            assert(all.take(i + 1).drop_last() =~= all.take(i as int));
            assert(all.take(i + 1).last() == all[i as int]);
        }
        if same_text(new_settings[i].0.as_str(), "app_services.config") {
            let ghost before = views(payloads@);
            payloads.push(new_settings[i].1.clone());
            assert(views(payloads@) =~= before.push(all[i as int].1));
        }
        i += 1;
    }
    assert(all.take(new_settings.len() as int) =~= all);
    payloads
}

/// The cancellation of a subscription, where there is one.
pub open spec fn cancel_of(token: Option<u64>) -> Seq<AppServiceActionModel> {
    match token {
        Some(t) => seq![AppServiceActionModel::Cancel(t)],
        None => Seq::<AppServiceActionModel>::empty(),
    }
}

/// The port of this machine the tunnel leads to: the local port of the
/// first mapping, where there is a mapping and its local port is a port
/// number.
pub open spec fn local_port_of(settings: AppServiceSettings) -> Option<u16> {
    if settings.port_mapping@.len() > 0 {
        decimal_u16(settings.port_mapping@[0].local_port@)
    } else {
        None
    }
}

/// What the actor does on new settings for an application service.
/// Without a DNS name the tunnel is closed and the session set up again.
/// With one, the tunnel that was open is closed, the session is set up
/// again unless the settings held so far already name this DNS name, and a
/// tunnel for the name is opened; settings without a usable local port are
/// refused.
pub open spec fn settings_plan(
    tunnel: Option<u64>,
    fresh: u64,
    existing_settings: Seq<(Seq<char>, Seq<char>)>,
    settings: AppServiceSettings,
) -> Result<Seq<AppServiceActionModel>, AppServicesErrorCodes> {
    if settings.dns_name@.len() == 0 {
        Ok(cancel_of(tunnel).push(AppServiceActionModel::Reconnect))
    } else {
        match local_port_of(settings) {
            None => Err(AppServicesErrorCodes::PortParseError),
            Some(local_port) => {
                let subscribe = AppServiceActionModel::Subscribe {
                    token: fresh,
                    dns_name: settings.dns_name@,
                    local_port,
                };
                if needs_reconnect(existing_settings, settings.app_id@, settings.dns_name@) {
                    Ok(cancel_of(tunnel).push(AppServiceActionModel::Reconnect).push(subscribe))
                } else {
                    Ok(cancel_of(tunnel).push(subscribe))
                }
            },
        }
    }
}

/// The number the next subscription is known by, after `token` was given
/// out.
pub open spec fn token_after(token: u64) -> u64 {
    if token == u64::MAX {
        0
    } else {
        (token + 1) as u64
    }
}

impl AppServiceHandler {
    /// The number the open tunnel is known by, if one is open.
    pub closed spec fn tunnel(&self) -> Option<u64> {
        self.app_services_consumer_token
    }

    /// The number the settings subscription is known by, if there is one.
    pub closed spec fn sync(&self) -> Option<u64> {
        self.sync_app_services_token
    }

    /// The number the next subscription will be known by.
    pub closed spec fn fresh(&self) -> u64 {
        self.next_token
    }

    /// Makes the actor, with no subscription.
    pub fn new(options: AppServiceOptions) -> (handler: AppServiceHandler)
        ensures
            handler.tunnel().is_none(),
            handler.sync().is_none(),
            handler.fresh() == options.first_token,
    {
        AppServiceHandler {
            app_services_consumer_token: None,
            sync_app_services_token: None,
            next_token: options.first_token,
        }
    }

    /// The number the open tunnel is known by, if one is open.
    pub fn tunnel_token(&self) -> (token: Option<u64>)
        ensures
            token == self.tunnel(),
    {
        self.app_services_consumer_token
    }

    /// Records the subscription that was made for the settings.
    pub fn set_sync_token(&mut self, token: u64)
        ensures
            final(self).sync() == Some(token),
            final(self).tunnel() == old(self).tunnel(),
            final(self).fresh() == old(self).fresh(),
    {
        self.sync_app_services_token = Some(token);
    }

    /// Forgets the tunnel. Returns the number of the subscription to
    /// cancel, if a tunnel was open.
    pub fn clear_app_services_subscriber(&mut self) -> (cancelled: Option<u64>)
        ensures
            cancelled == old(self).tunnel(),
            final(self).tunnel().is_none(),
            final(self).sync() == old(self).sync(),
            final(self).fresh() == old(self).fresh(),
    {
        let token = self.app_services_consumer_token;
        self.app_services_consumer_token = None;
        token
    }

    /// Forgets the settings subscription. Returns the number of the
    /// subscription to cancel, if there was one.
    pub fn clear_sync_settings_subscriber(&mut self) -> (cancelled: Option<u64>)
        ensures
            cancelled == old(self).sync(),
            final(self).sync().is_none(),
            final(self).tunnel() == old(self).tunnel(),
            final(self).fresh() == old(self).fresh(),
    {
        let token = self.sync_app_services_token;
        self.sync_app_services_token = None;
        token
    }

    /// Opens the tunnel for `dns_name` to the server on `local_port`: the
    /// subscription is known by the next free number from now on.
    pub fn subscribe_to_nats(&mut self, dns_name: String, local_port: u16) -> (action:
        AppServiceAction)
        ensures
            action@ == (AppServiceActionModel::Subscribe {
                token: old(self).fresh(),
                dns_name: dns_name@,
                local_port,
            }),
            final(self).tunnel() == Some(old(self).fresh()),
            final(self).fresh() == token_after(old(self).fresh()),
            final(self).sync() == old(self).sync(),
    {
        let token = self.next_token;
        self.next_token = if token == u64::MAX {
            0
        } else {
            token + 1
        };
        self.app_services_consumer_token = Some(token);
        AppServiceAction::Subscribe { token, dns_name, local_port }
    }

    /// Takes in an event of the bus. When the session is lost or the
    /// machine deprovisioned, both subscriptions are cancelled, the one for
    /// settings first. No other event changes anything here.
    pub fn on_event(&mut self, event: &Event) -> (actions: Vec<AppServiceAction>)
        ensures
            ({
                let lost = *event == Event::Messaging(MessagingEvent::Disconnected) || *event
                    == Event::Provisioning(ProvisioningEvent::Deprovisioned);
                let sync = old(self).sync();
                let tunnel = old(self).tunnel();
                &&& final(self).fresh() == old(self).fresh()
                &&& if lost {
                    &&& action_views(actions@) == cancel_of(sync) + cancel_of(tunnel)
                    &&& final(self).tunnel().is_none()
                    &&& final(self).sync().is_none()
                } else {
                    &&& actions@.len() == 0
                    &&& final(self).tunnel() == tunnel
                    &&& final(self).sync() == sync
                }
            }),
    {
        let mut actions: Vec<AppServiceAction> = Vec::new();
        let lost = match event {
            Event::Messaging(MessagingEvent::Disconnected) => true,
            Event::Provisioning(ProvisioningEvent::Deprovisioned) => true,
            _ => false,
        };
        if lost {
            let ghost sync = self.sync();
            let ghost tunnel = self.tunnel();
            match self.clear_sync_settings_subscriber() {
                Some(token) => {
                    actions.push(AppServiceAction::Cancel(token));
                },
                None => {},
            }
            match self.clear_app_services_subscriber() {
                Some(token) => {
                    actions.push(AppServiceAction::Cancel(token));
                },
                None => {},
            }
            assert(action_views(actions@) =~= cancel_of(sync) + cancel_of(tunnel));
        }
        actions
    }

    /// Takes in new settings for an application service. `settings` is
    /// the decoded value, `None` where it could not be decoded.
    pub fn on_settings(
        &mut self,
        settings: Option<AppServiceSettings>,
        existing_settings: &Vec<(String, String)>,
    ) -> (r: Result<Vec<AppServiceAction>, AppServicesErrorCodes>)
        ensures
            ({
                let tunnel = old(self).tunnel();
                let fresh = old(self).fresh();
                let tunnel_after = final(self).tunnel();
                let fresh_after = final(self).fresh();
                &&& final(self).sync() == old(self).sync()
                &&& match settings {
                    None => {
                        &&& r matches Err(e) && e
                            == AppServicesErrorCodes::ServiceSettingsParseError
                        &&& tunnel_after == tunnel
                        &&& fresh_after == fresh
                    },
                    Some(given) => {
                        let plan = settings_plan(
                            tunnel,
                            fresh,
                            pair_views(existing_settings@),
                            given,
                        );
                        match r {
                            Err(e) => {
                                &&& plan == Err::<Seq<AppServiceActionModel>, AppServicesErrorCodes>(
                                    e,
                                )
                                &&& tunnel_after == tunnel
                                &&& fresh_after == fresh
                            },
                            Ok(actions) => {
                                &&& plan == Ok::<Seq<AppServiceActionModel>, AppServicesErrorCodes>(
                                    action_views(actions@),
                                )
                                &&& if given.dns_name@.len() == 0 {
                                    tunnel_after.is_none() && fresh_after == fresh
                                } else {
                                    tunnel_after == Some(fresh) && fresh_after == token_after(fresh)
                                }
                            },
                        }
                    },
                }
            }),
    {
        let given = match settings {
            Some(given) => given,
            None => {
                return Err(AppServicesErrorCodes::ServiceSettingsParseError);
            },
        };
        let mut actions: Vec<AppServiceAction> = Vec::new();
        let ghost tunnel = self.tunnel();
        if given.dns_name.as_str().unicode_len() == 0 {
            match self.clear_app_services_subscriber() {
                Some(token) => {
                    actions.push(AppServiceAction::Cancel(token));
                },
                None => {},
            }
            actions.push(AppServiceAction::Reconnect);
            assert(action_views(actions@) =~= cancel_of(tunnel).push(
                AppServiceActionModel::Reconnect,
            ));
            return Ok(actions);
        }
        if given.port_mapping.len() == 0 {
            return Err(AppServicesErrorCodes::PortParseError);
        }
        let local_port = match parse_u16(given.port_mapping[0].local_port.as_str()) {
            Some(port) => port,
            None => {
                return Err(AppServicesErrorCodes::PortParseError);
            },
        };
        match self.clear_app_services_subscriber() {
            Some(token) => {
                actions.push(AppServiceAction::Cancel(token));
            },
            None => {},
        }
        let reconnect = reconnect_messaging_service(
            given.dns_name.as_str(),
            given.app_id.as_str(),
            existing_settings,
        );
        if reconnect {
            actions.push(AppServiceAction::Reconnect);
        }
        let ghost token = self.fresh();
        let subscribe_action = self.subscribe_to_nats(given.dns_name, local_port);
        actions.push(subscribe_action);
        proof {
            let subscribe = AppServiceActionModel::Subscribe {
                token,
                dns_name: given.dns_name@,
                local_port,
            };
            if reconnect {
                assert(action_views(actions@) =~= cancel_of(tunnel).push(
                    AppServiceActionModel::Reconnect,
                ).push(subscribe));
            } else {
                assert(action_views(actions@) =~= cancel_of(tunnel).push(subscribe));
            }
        }
        Ok(actions)
    }
}

} // verus!
