use vstd::prelude::*;
use vstd::string::StringExecFns;
use crate::error::{FlowError, ProtocolViolation};
use crate::model::{Provider, ProviderModel};

verus! {

/// Whether a provider is described fully enough to be offered: it has a
/// display name and a country code.
pub open spec fn eligible(p: ProviderModel) -> bool {
    p.display_name is Some && p.country_code is Some
}

/// The providers that are offered for selection: the eligible ones, in the
/// order in which the server listed them.
pub open spec fn offered(providers: Seq<ProviderModel>) -> Seq<ProviderModel> {
    providers.filter(|p: ProviderModel| eligible(p))
}

/// The flag glyph of a country code: a fixed table of ten codes.
pub open spec fn flag_glyph(code: Seq<char>) -> Option<Seq<char>> {
    if code == "DE"@ {
        Some("\u{1F1E9}\u{1F1EA}"@)
    } else if code == "ES"@ {
        Some("\u{1F1EA}\u{1F1F8}"@)
    } else if code == "FR"@ {
        Some("\u{1F1EB}\u{1F1F7}"@)
    } else if code == "GB"@ {
        Some("\u{1F1EC}\u{1F1E7}"@)
    } else if code == "IE"@ {
        Some("\u{1F1EE}\u{1F1EA}"@)
    } else if code == "IT"@ {
        Some("\u{1F1EE}\u{1F1F9}"@)
    } else if code == "LT"@ {
        Some("\u{1F1F1}\u{1F1F9}"@)
    } else if code == "NL"@ {
        Some("\u{1F1F3}\u{1F1F1}"@)
    } else if code == "PL"@ {
        Some("\u{1F1F5}\u{1F1F1}"@)
    } else if code == "PT"@ {
        Some("\u{1F1F5}\u{1F1F9}"@)
    } else {
        None
    }
}

/// Whether every provider of `ps` has a country code with a glyph.
pub open spec fn all_mapped(ps: Seq<ProviderModel>) -> bool {
    forall|i: int|
        0 <= i < ps.len() ==> (#[trigger] ps[i]).country_code is Some && flag_glyph(
            ps[i].country_code->0,
        ) is Some
}

/// The label under which an eligible provider is shown: its flag, a space,
/// its display name.
pub open spec fn provider_label(p: ProviderModel) -> Seq<char>
    recommends
        eligible(p),
        flag_glyph(p.country_code->0) is Some,
{
    flag_glyph(p.country_code->0)->0 + " "@ + p.display_name->0
}

/// The labels of all offered providers, in order.
pub open spec fn offered_labels(providers: Seq<ProviderModel>) -> Seq<Seq<char>> {
    Seq::new(offered(providers).len(), |i: int| provider_label(offered(providers)[i]))
}

/// The ids of all offered providers, in order.
pub open spec fn offered_ids(providers: Seq<ProviderModel>) -> Seq<Seq<char>> {
    Seq::new(offered(providers).len(), |i: int| offered(providers)[i].id)
}

/// Only fully described providers are offered: the offer is no longer than
/// the server's list, each offered provider is eligible, and each eligible
/// provider of the list is offered.
pub proof fn law_only_eligible_are_offered(providers: Seq<ProviderModel>)
    ensures
        offered(providers).len() <= providers.len(),
        forall|i: int| 0 <= i < offered(providers).len() ==> eligible(#[trigger] offered(providers)[i]),
        forall|i: int|
            0 <= i < providers.len() && eligible(providers[i]) ==> offered(providers).contains(
                #[trigger] providers[i],
            ),
        forall|i: int|
            0 <= i < providers.len() && !eligible(providers[i]) ==> !offered(providers).contains(
                #[trigger] providers[i],
            ),
{
    let pred = |p: ProviderModel| eligible(p);
    providers.lemma_filter_len(pred);
    assert forall|i: int| 0 <= i < offered(providers).len() implies eligible(
        #[trigger] offered(providers)[i],
    ) by {
        providers.lemma_filter_pred(pred, i);
    }
    assert forall|i: int| 0 <= i < providers.len() && eligible(providers[i]) implies offered(
        providers,
    ).contains(#[trigger] providers[i]) by {
        providers.lemma_filter_contains(pred, i);
    }
    assert forall|i: int| 0 <= i < providers.len() && !eligible(providers[i]) implies !offered(
        providers,
    ).contains(#[trigger] providers[i]) by {
        if offered(providers).contains(providers[i]) {
            let j = choose|j: int|
                0 <= j < offered(providers).len() && offered(providers)[j] == providers[i];
            providers.lemma_filter_pred(pred, j);
        }
    }
}

/// Extending the server's list by one provider extends the offer by that
/// provider if it is eligible, and leaves the offer alone if not.
proof fn lemma_offered_step(providers: Seq<ProviderModel>, i: int)
    requires
        0 <= i < providers.len(),
    ensures
        offered(providers.take(i + 1)) == if eligible(providers[i]) {
            offered(providers.take(i)).push(providers[i])
        } else {
            offered(providers.take(i))
        },
{
    reveal(Seq::filter);
    assert(providers.take(i + 1).drop_last() =~= providers.take(i));
}

fn same_text(a: &str, b: &str) -> (res: bool)
    ensures
        res == (a@ == b@),
{
    String::from_str(a) == String::from_str(b)
}

/// Looks up the flag glyph of a country code. A code outside the table is an
/// error, never a default glyph.
pub fn to_emoji(country: &str) -> (res: Result<&'static str, FlowError>)
    ensures
        match res {
            Ok(glyph) => flag_glyph(country@) == Some(glyph@),
            Err(e) => flag_glyph(country@) is None && e == FlowError::ProtocolError(
                ProtocolViolation::UnmappedCountry,
            ),
        },
{
    if same_text(country, "DE") {
        Ok("\u{1F1E9}\u{1F1EA}")
    } else if same_text(country, "ES") {
        Ok("\u{1F1EA}\u{1F1F8}")
    } else if same_text(country, "FR") {
        Ok("\u{1F1EB}\u{1F1F7}")
    } else if same_text(country, "GB") {
        Ok("\u{1F1EC}\u{1F1E7}")
    } else if same_text(country, "IE") {
        Ok("\u{1F1EE}\u{1F1EA}")
    } else if same_text(country, "IT") {
        Ok("\u{1F1EE}\u{1F1F9}")
    } else if same_text(country, "LT") {
        Ok("\u{1F1F1}\u{1F1F9}")
    } else if same_text(country, "NL") {
        Ok("\u{1F1F3}\u{1F1F1}")
    } else if same_text(country, "PL") {
        Ok("\u{1F1F5}\u{1F1F1}")
    } else if same_text(country, "PT") {
        Ok("\u{1F1F5}\u{1F1F9}")
    } else {
        Err(FlowError::ProtocolError(ProtocolViolation::UnmappedCountry))
    }
}

/// What is put before the operator for a provider selection: one label per
/// offered provider and, at the same position, that provider's id.
#[derive(Clone, Debug, PartialEq, Eq)]
pub struct Offer {
    pub labels: Vec<String>,
    pub ids: Vec<String>,
}

/// Builds the offer for a provider selection. Providers without a display
/// name or a country code are left out; an offered provider whose country has
/// no glyph makes the whole offer fail.
pub fn offer_providers(providers: &Vec<Provider>) -> (res: Result<Offer, FlowError>)
    ensures
        match res {
            Ok(offer) => all_mapped(offered(providers.deep_view())) && offer.labels.deep_view()
                == offered_labels(providers.deep_view()) && offer.ids.deep_view() == offered_ids(
                providers.deep_view(),
            ),
            Err(e) => !all_mapped(offered(providers.deep_view())) && e == FlowError::ProtocolError(
                ProtocolViolation::UnmappedCountry,
            ),
        },
{
    let ghost ps = providers.deep_view();
    let mut labels: Vec<String> = Vec::new();
    let mut ids: Vec<String> = Vec::new();
    let mut i: usize = 0;
    proof {
        reveal(Seq::filter);
        assert(ps.take(0) =~= Seq::<ProviderModel>::empty());
    }
    while i < providers.len()
        invariant
            0 <= i <= providers.len(),
            ps == providers.deep_view(),
            ps.len() == providers.len(),
            labels.len() == offered(ps.take(i as int)).len(),
            ids.len() == offered(ps.take(i as int)).len(),
            all_mapped(offered(ps.take(i as int))),
            forall|j: int|
                0 <= j < labels.len() ==> (#[trigger] labels[j])@ == provider_label(
                    offered(ps.take(i as int))[j],
                ),
            forall|j: int|
                0 <= j < ids.len() ==> (#[trigger] ids[j])@ == offered(ps.take(i as int))[j].id,
        decreases providers.len() - i,
    {
        let p = &providers[i];
        proof {
            assert(ps[i as int] == p.deep_view());
            lemma_offered_step(ps, i as int);
        }
        let ghost before = offered(ps.take(i as int));
        let ghost after = offered(ps.take(i + 1));
        match (&p.country_code, &p.display_name) {
            (Some(code), Some(name)) => {
                assert(after == before.push(ps[i as int]));
                match to_emoji(code.as_str()) {
                    Ok(glyph) => {
                        let label = String::from_str(glyph).concat(" ").concat(name.as_str());
                        labels.push(label);
                        ids.push(p.id.clone());
                    },
                    Err(e) => {
                        proof {
                            let rest = ps.skip(i + 1);
                            assert(ps =~= ps.take(i + 1) + rest);
                            Seq::filter_distributes_over_add(
                                ps.take(i + 1),
                                rest,
                                |p: ProviderModel| eligible(p),
                            );
                            assert(offered(ps) == after + offered(rest));
                            assert(offered(ps)[before.len() as int] == ps[i as int]);
                        }
                        return Err(e);
                    },
                }
            },
            _ => {
                assert(after == before);
            },
        }
        i = i + 1;
    }
    proof {
        assert(ps.take(i as int) =~= ps);
        assert(labels.deep_view() =~= offered_labels(ps));
        assert(ids.deep_view() =~= offered_ids(ps));
    }
    Ok(Offer { labels, ids })
}

} // verus!
