use vstd::prelude::*;
use vstd::string::StringExecFns;
use crate::QuickPayClient;

verus! {

/// What can go wrong around a payment, outside its authorization flow.
#[derive(Clone, Copy, Debug, PartialEq, Eq, Structural)]
pub enum PaymentError {
    /// Neither an IBAN nor a sort code with an account number was given.
    MissingAccountIdentifier,
    /// The payment was last seen in a status that is not terminal.
    NotTerminal,
}

/// The currency of a payment, counted in its minor unit.
#[derive(Clone, Copy, Debug, PartialEq, Eq, Structural)]
pub enum Currency {
    /// Pence.
    Gbp,
    /// Cent.
    Eur,
}

/// How the beneficiary's account is named.
#[derive(Clone, Debug, PartialEq, Eq)]
pub enum AccountIdentifier {
    Iban { iban: String },
    SortCodeAccountNumber { sort_code: String, account_number: String },
}

pub enum AccountIdentifierModel {
    Iban { iban: Seq<char> },
    SortCodeAccountNumber { sort_code: Seq<char>, account_number: Seq<char> },
}

impl DeepView for AccountIdentifier {
    type V = AccountIdentifierModel;

    open spec fn deep_view(&self) -> AccountIdentifierModel {
        match *self {
            AccountIdentifier::Iban { iban } => AccountIdentifierModel::Iban { iban: iban@ },
            AccountIdentifier::SortCodeAccountNumber {
                sort_code,
                account_number,
            } => AccountIdentifierModel::SortCodeAccountNumber {
                sort_code: sort_code@,
                account_number: account_number@,
            },
        }
    }
}

/// The recipient of a payment: an account outside the service.
#[derive(Clone, Debug, PartialEq, Eq)]
pub struct Beneficiary {
    pub account_holder_name: String,
    pub reference: String,
    pub account_identifier: AccountIdentifier,
}

pub struct BeneficiaryModel {
    pub account_holder_name: Seq<char>,
    pub reference: Seq<char>,
    pub account_identifier: AccountIdentifierModel,
}

impl DeepView for Beneficiary {
    type V = BeneficiaryModel;

    open spec fn deep_view(&self) -> BeneficiaryModel {
        BeneficiaryModel {
            account_holder_name: self.account_holder_name@,
            reference: self.reference@,
            account_identifier: self.account_identifier.deep_view(),
        }
    }
}

/// The request that creates a payment: a bank transfer to the beneficiary,
/// from a provider that the payer selects, by an instant scheme where there
/// is one, on behalf of a new user.
#[derive(Clone, Debug, PartialEq, Eq)]
pub struct PaymentRequest {
    pub amount_in_minor: u64,
    pub currency: Currency,
    pub beneficiary: Beneficiary,
    /// Whether a fee charged to the remitter is acceptable for an instant
    /// scheme.
    pub allow_remitter_fee: Option<bool>,
    pub user_name: Option<String>,
    pub user_email: Option<String>,
    pub user_phone: Option<String>,
}

pub struct PaymentRequestModel {
    pub amount_in_minor: int,
    pub currency: Currency,
    pub beneficiary: BeneficiaryModel,
    pub allow_remitter_fee: Option<bool>,
    pub user_name: Option<Seq<char>>,
    pub user_email: Option<Seq<char>>,
    pub user_phone: Option<Seq<char>>,
}

impl DeepView for PaymentRequest {
    type V = PaymentRequestModel;

    open spec fn deep_view(&self) -> PaymentRequestModel {
        PaymentRequestModel {
            amount_in_minor: self.amount_in_minor as int,
            currency: self.currency,
            beneficiary: self.beneficiary.deep_view(),
            allow_remitter_fee: self.allow_remitter_fee,
            user_name: self.user_name.deep_view(),
            user_email: self.user_email.deep_view(),
            user_phone: self.user_phone.deep_view(),
        }
    }
}

/// The status in which a payment was last seen, with the time of a terminal
/// status as the service words it.
#[derive(Clone, Debug, PartialEq, Eq)]
pub enum PaymentStatus {
    Executed { executed_at: String },
    Settled { settled_at: String },
    Failed { failed_at: String },
    /// Any status from which the payment can still move on.
    Pending,
}

pub enum PaymentStatusModel {
    Executed { executed_at: Seq<char> },
    Settled { settled_at: Seq<char> },
    Failed { failed_at: Seq<char> },
    Pending,
}

impl DeepView for PaymentStatus {
    type V = PaymentStatusModel;

    open spec fn deep_view(&self) -> PaymentStatusModel {
        match *self {
            PaymentStatus::Executed { executed_at } => PaymentStatusModel::Executed {
                executed_at: executed_at@,
            },
            PaymentStatus::Settled { settled_at } => PaymentStatusModel::Settled {
                settled_at: settled_at@,
            },
            PaymentStatus::Failed { failed_at } => PaymentStatusModel::Failed { failed_at: failed_at@ },
            PaymentStatus::Pending => PaymentStatusModel::Pending,
        }
    }
}

/// The account that the arguments name: the IBAN where one is given, else
/// the sort code and account number that head the list.
pub open spec fn named_account(scan: Option<Seq<Seq<char>>>, iban: Option<Seq<char>>) -> Result<
    AccountIdentifierModel,
    PaymentError,
> {
    match iban {
        Some(iban) => Ok(AccountIdentifierModel::Iban { iban }),
        None => match scan {
            Some(parts) if parts.len() >= 2 => Ok(
                AccountIdentifierModel::SortCodeAccountNumber {
                    sort_code: parts[0],
                    account_number: parts[1],
                },
            ),
            _ => Err(PaymentError::MissingAccountIdentifier),
        },
    }
}

/// The request that `create` makes.
pub open spec fn creation_request(
    amount: int,
    currency: Currency,
    beneficiary: BeneficiaryModel,
) -> PaymentRequestModel {
    PaymentRequestModel {
        amount_in_minor: amount,
        currency,
        beneficiary,
        allow_remitter_fee: Some(false),
        user_name: Some("Name"@),
        user_email: Some("a@b.com"@),
        user_phone: None,
    }
}

/// The line that reports a terminal status, or the error of a status that
/// is not terminal.
pub open spec fn status_line(status: PaymentStatusModel) -> Result<Seq<char>, PaymentError> {
    match status {
        PaymentStatusModel::Executed { executed_at } => Ok("Payment executed at "@ + executed_at),
        PaymentStatusModel::Settled { settled_at } => Ok("Payment settled at "@ + settled_at),
        PaymentStatusModel::Failed { failed_at } => Ok("Payment failed at "@ + failed_at),
        PaymentStatusModel::Pending => Err(PaymentError::NotTerminal),
    }
}

/// Picks the beneficiary's account from what the operator gave: an IBAN
/// takes precedence over a sort code and account number.
pub fn account_identifier(scan: Option<Vec<String>>, iban: Option<String>) -> (res: Result<
    AccountIdentifier,
    PaymentError,
>)
    ensures
        match res {
            Ok(account) => named_account(scan.deep_view(), iban.deep_view()) == Ok::<
                AccountIdentifierModel,
                PaymentError,
            >(account.deep_view()),
            Err(e) => named_account(scan.deep_view(), iban.deep_view()) == Err::<
                AccountIdentifierModel,
                PaymentError,
            >(e),
        },
{
    if let Some(iban) = iban {
        return Ok(AccountIdentifier::Iban { iban });
    }
    if let Some(parts) = scan {
        if parts.len() >= 2 {
            assert(parts.deep_view()[0] == parts[0]@);
            assert(parts.deep_view()[1] == parts[1]@);
            return Ok(
                AccountIdentifier::SortCodeAccountNumber {
                    sort_code: parts[0].clone(),
                    account_number: parts[1].clone(),
                },
            );
        }
    }
    Err(PaymentError::MissingAccountIdentifier)
}

/// Words the final status line of a payment.
pub fn payment_outcome(status: &PaymentStatus) -> (res: Result<String, PaymentError>)
    ensures
        match res {
            Ok(line) => status_line(status.deep_view()) == Ok::<Seq<char>, PaymentError>(line@),
            Err(e) => status_line(status.deep_view()) == Err::<Seq<char>, PaymentError>(e),
        },
{
    match status {
        PaymentStatus::Executed { executed_at } => Ok(
            String::from_str("Payment executed at ").concat(executed_at.as_str()),
        ),
        PaymentStatus::Settled { settled_at } => Ok(
            String::from_str("Payment settled at ").concat(settled_at.as_str()),
        ),
        PaymentStatus::Failed { failed_at } => Ok(
            String::from_str("Payment failed at ").concat(failed_at.as_str()),
        ),
        PaymentStatus::Pending => Err(PaymentError::NotTerminal),
    }
}

impl QuickPayClient {
    /// Builds the request that creates the payment. The flow that authorizes
    /// it and the wait for its terminal status follow, and are the caller's
    /// to run.
    pub fn create(&self, amount: u64, currency: Currency, beneficiary: Beneficiary) -> (res:
        PaymentRequest)
        ensures
            res.deep_view() == creation_request(amount as int, currency, beneficiary.deep_view()),
    {
        PaymentRequest {
            amount_in_minor: amount,
            currency,
            beneficiary,
            allow_remitter_fee: Some(false),
            user_name: Some(String::from_str("Name")),
            user_email: Some(String::from_str("a@b.com")),
            user_phone: None,
        }
    }
}

} // verus!
