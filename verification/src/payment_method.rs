//! The payment-method records of the e-invoice document: six mutually
//! exclusive representations, each built through validated setters and
//! rendered to a fixed-order markup fragment.

use vstd::prelude::*;

use crate::markup::append_opt_text_element;
use crate::markup::attr_text;
use crate::markup::bool_text;
use crate::markup::empty_element;
use crate::markup::int_text;
use crate::markup::opt_text_element;
use crate::markup::spec_attr;
use crate::markup::spec_bool_text;
use crate::markup::spec_element;
use crate::markup::spec_int_text;
use crate::markup::spec_opt_text_element;
use crate::markup::spec_text_element;
use crate::markup::text_element;
use crate::markup::wrap_element;
use crate::shape::bic_shape;
use crate::shape::check_bic;
use crate::shape::check_date;
use crate::shape::check_masked_pan;
use crate::shape::date_shape;
use crate::shape::masked_pan_shape;

verus! {

/// Builds the message of a field-validation failure: the field name, the
/// rejected value, and the violated rule, in one human-readable line.
fn field_message(field: &str, value: &str, rule: &str) -> (r: String)
    ensures
        r@ == field@ + value@ + rule@,
{
    let mut s = String::from_str(field);
    s.append(value);
    s.append(rule);
    proof {
        assert(s@ =~= field@ + value@ + rule@);
    }
    s
}

/// A SEPA direct-debit instruction. Every field is optional; the setters
/// enforce the field-local constraints, and rendering fills in the `B2C`
/// default for the type.
#[derive(Debug)]
pub struct PaymentMethodSEPADirectDebit<'a> {
    pub direct_debit_type: Option<&'a str>,
    pub bic: Option<&'a str>,
    pub iban: Option<&'a str>,
    pub bank_account_owner: Option<&'a str>,
    pub creditor_id: Option<&'a str>,
    pub mandate_reference: Option<&'a str>,
    pub debit_collection_date: Option<&'a str>,
}

impl<'a> PaymentMethodSEPADirectDebit<'a> {
    /// The field-local constraints the setters enforce.
    pub open spec fn wf(self) -> bool {
        &&& (self.bic is Some ==> bic_shape(self.bic->0@))
        &&& (self.iban is Some ==> self.iban->0@.len() <= 34)
        &&& (self.bank_account_owner is Some ==> self.bank_account_owner->0@.len() <= 70)
        &&& (self.creditor_id is Some ==> self.creditor_id->0@.len() <= 35)
        &&& (self.mandate_reference is Some ==> self.mandate_reference->0@.len() <= 35)
        &&& (self.debit_collection_date is Some ==> date_shape(self.debit_collection_date->0@))
    }

    /// The markup this record renders to: a `SEPADirectDebit` element whose
    /// children stand in fixed order, the `Type` always present (defaulting
    /// to `B2C`), every other field only when set.
    pub open spec fn spec_xml(self) -> Seq<char> {
        spec_element(
            "SEPADirectDebit"@,
            Seq::empty(),
            spec_text_element(
                "Type"@,
                match self.direct_debit_type {
                    Some(t) => t@,
                    None => "B2C"@,
                },
            ) + spec_opt_text_element("BIC"@, self.bic) + spec_opt_text_element("IBAN"@, self.iban)
                + spec_opt_text_element("BankAccountOwner"@, self.bank_account_owner)
                + spec_opt_text_element("CreditorID"@, self.creditor_id)
                + spec_opt_text_element("MandateReference"@, self.mandate_reference)
                + spec_opt_text_element("DebitCollectionDate"@, self.debit_collection_date),
        )
    }

    pub fn new() -> (r: Self)
        ensures
            r == (PaymentMethodSEPADirectDebit {
                direct_debit_type: None,
                bic: None,
                iban: None,
                bank_account_owner: None,
                creditor_id: None,
                mandate_reference: None,
                debit_collection_date: None,
            }),
            r.wf(),
    {
        PaymentMethodSEPADirectDebit {
            direct_debit_type: None,
            bic: None,
            iban: None,
            bank_account_owner: None,
            creditor_id: None,
            mandate_reference: None,
            debit_collection_date: None,
        }
    }

    pub fn with_direct_debit_type(self, direct_debit_type: &'a str) -> (r: Self)
        ensures
            r == (PaymentMethodSEPADirectDebit {
                direct_debit_type: Some(direct_debit_type),
                ..self
            }),
            self.wf() ==> r.wf(),
    {
        PaymentMethodSEPADirectDebit { direct_debit_type: Some(direct_debit_type), ..self }
    }

    /// Accepts exactly the BIC shape; a rejected value leaves no trace.
    pub fn with_bic(self, bic: &'a str) -> (r: Result<Self, String>)
        ensures
            bic_shape(bic@) ==> r is Ok && r->Ok_0 == (PaymentMethodSEPADirectDebit {
                bic: Some(bic),
                ..self
            }),
            !bic_shape(bic@) ==> r is Err && r->Err_0@ == "BIC "@ + bic@
                + " is not 8 or 11 alphanumeric characters!"@,
            self.wf() && r is Ok ==> r->Ok_0.wf(),
    {
        if !check_bic(bic) {
            return Err(field_message("BIC ", bic, " is not 8 or 11 alphanumeric characters!"));
        }
        Ok(PaymentMethodSEPADirectDebit { bic: Some(bic), ..self })
    }

    /// Accepts at most 34 characters.
    pub fn with_iban(self, iban: &'a str) -> (r: Result<Self, String>)
        ensures
            iban@.len() <= 34 ==> r is Ok && r->Ok_0 == (PaymentMethodSEPADirectDebit {
                iban: Some(iban),
                ..self
            }),
            iban@.len() > 34 ==> r is Err && r->Err_0@ == "IBAN "@ + iban@ + " is too long!"@,
            self.wf() && r is Ok ==> r->Ok_0.wf(),
    {
        if iban.unicode_len() > 34 {
            return Err(field_message("IBAN ", iban, " is too long!"));
        }
        Ok(PaymentMethodSEPADirectDebit { iban: Some(iban), ..self })
    }

    /// Accepts at most 70 characters.
    pub fn with_bank_account_owner(self, bank_account_owner: &'a str) -> (r: Result<Self, String>)
        ensures
            bank_account_owner@.len() <= 70 ==> r is Ok && r->Ok_0 == (PaymentMethodSEPADirectDebit {
                bank_account_owner: Some(bank_account_owner),
                ..self
            }),
            bank_account_owner@.len() > 70 ==> r is Err && r->Err_0@ == "BankAccountOwner "@
                + bank_account_owner@ + " is too long!"@,
            self.wf() && r is Ok ==> r->Ok_0.wf(),
    {
        if bank_account_owner.unicode_len() > 70 {
            return Err(field_message("BankAccountOwner ", bank_account_owner, " is too long!"));
        }
        Ok(PaymentMethodSEPADirectDebit { bank_account_owner: Some(bank_account_owner), ..self })
    }

    /// Accepts at most 35 characters.
    pub fn with_creditor_id(self, creditor_id: &'a str) -> (r: Result<Self, String>)
        ensures
            creditor_id@.len() <= 35 ==> r is Ok && r->Ok_0 == (PaymentMethodSEPADirectDebit {
                creditor_id: Some(creditor_id),
                ..self
            }),
            creditor_id@.len() > 35 ==> r is Err && r->Err_0@ == "CreditorID "@ + creditor_id@
                + " is too long!"@,
            self.wf() && r is Ok ==> r->Ok_0.wf(),
    {
        if creditor_id.unicode_len() > 35 {
            return Err(field_message("CreditorID ", creditor_id, " is too long!"));
        }
        Ok(PaymentMethodSEPADirectDebit { creditor_id: Some(creditor_id), ..self })
    }

    /// Accepts at most 35 characters.
    pub fn with_mandate_reference(self, mandate_reference: &'a str) -> (r: Result<Self, String>)
        ensures
            mandate_reference@.len() <= 35 ==> r is Ok && r->Ok_0 == (PaymentMethodSEPADirectDebit {
                mandate_reference: Some(mandate_reference),
                ..self
            }),
            mandate_reference@.len() > 35 ==> r is Err && r->Err_0@ == "MandateReference "@
                + mandate_reference@ + " is too long!"@,
            self.wf() && r is Ok ==> r->Ok_0.wf(),
    {
        if mandate_reference.unicode_len() > 35 {
            return Err(field_message("MandateReference ", mandate_reference, " is too long!"));
        }
        Ok(PaymentMethodSEPADirectDebit { mandate_reference: Some(mandate_reference), ..self })
    }

    /// Accepts exactly the lexical date shape `YYYY-MM-DD`; calendar validity
    /// is not checked.
    pub fn with_debit_collection_date(self, debit_collection_date: &'a str) -> (r: Result<
        Self,
        String,
    >)
        ensures
            date_shape(debit_collection_date@) ==> r is Ok && r->Ok_0 == (
            PaymentMethodSEPADirectDebit { debit_collection_date: Some(debit_collection_date), ..self }),
            !date_shape(debit_collection_date@) ==> r is Err && r->Err_0@ == "DebitCollectionDate "@
                + debit_collection_date@ + " doesn't match the shape YYYY-MM-DD!"@,
            self.wf() && r is Ok ==> r->Ok_0.wf(),
    {
        if !check_date(debit_collection_date) {
            return Err(
                field_message(
                    "DebitCollectionDate ",
                    debit_collection_date,
                    " doesn't match the shape YYYY-MM-DD!",
                ),
            );
        }
        Ok(
            PaymentMethodSEPADirectDebit {
                debit_collection_date: Some(debit_collection_date),
                ..self
            },
        )
    }

    /// Renders this record; the result is exactly `spec_xml`.
    pub fn to_xml(&self) -> (r: String)
        ensures
            r@ == self.spec_xml(),
    {
        let mut body = match self.direct_debit_type {
            Some(t) => text_element("Type", t),
            None => text_element("Type", "B2C"),
        };
        append_opt_text_element(&mut body, "BIC", self.bic);
        append_opt_text_element(&mut body, "IBAN", self.iban);
        append_opt_text_element(&mut body, "BankAccountOwner", self.bank_account_owner);
        append_opt_text_element(&mut body, "CreditorID", self.creditor_id);
        append_opt_text_element(&mut body, "MandateReference", self.mandate_reference);
        append_opt_text_element(&mut body, "DebitCollectionDate", self.debit_collection_date);
        let e = wrap_element("SEPADirectDebit", "", body.as_str());
        proof {
            reveal_strlit("");
            assert(""@ =~= Seq::<char>::empty());
        }
        e
    }
}

impl<'a> Default for PaymentMethodSEPADirectDebit<'a> {
    /// The default record: every field absent.
    fn default() -> (r: Self)
        ensures
            r == (PaymentMethodSEPADirectDebit {
                direct_debit_type: None,
                bic: None,
                iban: None,
                bank_account_owner: None,
                creditor_id: None,
                mandate_reference: None,
                debit_collection_date: None,
            }),
    {
        PaymentMethodSEPADirectDebit::new()
    }
}

/// A national bank code: its numeric value and the two-letter country code
/// naming the scheme the value belongs to.
#[derive(Debug)]
pub struct PaymentMethodUniversalBankTransactionBeneficiaryAccountBankCode<'a> {
    pub bank_code: i64,
    pub bank_code_type: &'a str,
}

impl<'a> PaymentMethodUniversalBankTransactionBeneficiaryAccountBankCode<'a> {
    /// The markup this record renders to: a `BankCode` element carrying the
    /// country code as the `BankCodeType` attribute and the numeric value as
    /// its text.
    pub open spec fn spec_xml(self) -> Seq<char> {
        spec_element(
            "BankCode"@,
            spec_attr("BankCodeType"@, self.bank_code_type@),
            spec_int_text(self.bank_code as int),
        )
    }

    pub fn new(bank_code: i64, bank_code_type: &'a str) -> (r: Self)
        ensures
            r == (PaymentMethodUniversalBankTransactionBeneficiaryAccountBankCode {
                bank_code,
                bank_code_type,
            }),
    {
        PaymentMethodUniversalBankTransactionBeneficiaryAccountBankCode {
            bank_code,
            bank_code_type,
        }
    }

    /// Renders this record; the result is exactly `spec_xml`.
    pub fn to_xml(&self) -> (r: String)
        ensures
            r@ == self.spec_xml(),
    {
        let attrs = attr_text("BankCodeType", self.bank_code_type);
        let num = int_text(self.bank_code);
        wrap_element("BankCode", attrs.as_str(), num.as_str())
    }
}

/// The rendering of an optional bank code: its element when set, nothing at
/// all when absent.
pub open spec fn spec_opt_bank_code_xml<'a>(
    o: Option<PaymentMethodUniversalBankTransactionBeneficiaryAccountBankCode<'a>>,
) -> Seq<char> {
    match o {
        Some(bc) => bc.spec_xml(),
        None => Seq::empty(),
    }
}

/// One beneficiary account of a universal bank transaction. Every field is
/// optional; the setters enforce the field-local constraints.
#[derive(Debug)]
pub struct PaymentMethodUniversalBankTransactionBeneficiaryAccount<'a> {
    pub bank_name: Option<&'a str>,
    pub bank_code: Option<PaymentMethodUniversalBankTransactionBeneficiaryAccountBankCode<'a>>,
    pub bic: Option<&'a str>,
    pub bank_account_number: Option<&'a str>,
    pub iban: Option<&'a str>,
    pub bank_account_owner: Option<&'a str>,
}

impl<'a> PaymentMethodUniversalBankTransactionBeneficiaryAccount<'a> {
    /// The field-local constraints the setters enforce.
    pub open spec fn wf(self) -> bool {
        &&& (self.bank_name is Some ==> self.bank_name->0@.len() <= 255)
        &&& (self.bank_code is Some ==> self.bank_code->0.bank_code_type@.len() == 2)
        &&& (self.bic is Some ==> bic_shape(self.bic->0@))
        &&& (self.iban is Some ==> self.iban->0@.len() <= 34)
        &&& (self.bank_account_owner is Some ==> self.bank_account_owner->0@.len() <= 70)
    }

    /// The markup this record renders to: a `BeneficiaryAccount` element
    /// whose children stand in fixed order, each only when set.
    pub open spec fn spec_xml(self) -> Seq<char> {
        spec_element(
            "BeneficiaryAccount"@,
            Seq::empty(),
            spec_opt_text_element("BankName"@, self.bank_name) + spec_opt_bank_code_xml(
                self.bank_code,
            ) + spec_opt_text_element("BIC"@, self.bic) + spec_opt_text_element(
                "BankAccountNr"@,
                self.bank_account_number,
            ) + spec_opt_text_element("IBAN"@, self.iban) + spec_opt_text_element(
                "BankAccountOwner"@,
                self.bank_account_owner,
            ),
        )
    }

    pub fn new() -> (r: Self)
        ensures
            r == (PaymentMethodUniversalBankTransactionBeneficiaryAccount {
                bank_name: None,
                bank_code: None,
                bic: None,
                bank_account_number: None,
                iban: None,
                bank_account_owner: None,
            }),
            r.wf(),
    {
        PaymentMethodUniversalBankTransactionBeneficiaryAccount {
            bank_name: None,
            bank_code: None,
            bic: None,
            bank_account_number: None,
            iban: None,
            bank_account_owner: None,
        }
    }

    /// Accepts at most 255 characters.
    pub fn with_bank_name(self, bank_name: &'a str) -> (r: Result<Self, String>)
        ensures
            bank_name@.len() <= 255 ==> r is Ok && r->Ok_0 == (
            PaymentMethodUniversalBankTransactionBeneficiaryAccount {
                bank_name: Some(bank_name),
                ..self
            }),
            bank_name@.len() > 255 ==> r is Err && r->Err_0@ == "BankName "@ + bank_name@
                + " is too long!"@,
            self.wf() && r is Ok ==> r->Ok_0.wf(),
    {
        if bank_name.unicode_len() > 255 {
            return Err(field_message("BankName ", bank_name, " is too long!"));
        }
        Ok(PaymentMethodUniversalBankTransactionBeneficiaryAccount { bank_name: Some(bank_name), ..self })
    }

    /// Accepts a bank code whose country code is exactly 2 characters.
    pub fn with_bank_code(
        self,
        bank_code: PaymentMethodUniversalBankTransactionBeneficiaryAccountBankCode<'a>,
    ) -> (r: Result<Self, String>)
        ensures
            bank_code.bank_code_type@.len() == 2 ==> r is Ok && r->Ok_0 == (
            PaymentMethodUniversalBankTransactionBeneficiaryAccount {
                bank_code: Some(bank_code),
                ..self
            }),
            bank_code.bank_code_type@.len() != 2 ==> r is Err && r->Err_0@ == "BankCodeType "@
                + bank_code.bank_code_type@ + " is not 2 characters long!"@,
            self.wf() && r is Ok ==> r->Ok_0.wf(),
    {
        if bank_code.bank_code_type.unicode_len() != 2 {
            return Err(
                field_message("BankCodeType ", bank_code.bank_code_type, " is not 2 characters long!"),
            );
        }
        Ok(PaymentMethodUniversalBankTransactionBeneficiaryAccount { bank_code: Some(bank_code), ..self })
    }

    /// Accepts exactly the BIC shape; a rejected value leaves no trace.
    pub fn with_bic(self, bic: &'a str) -> (r: Result<Self, String>)
        ensures
            bic_shape(bic@) ==> r is Ok && r->Ok_0 == (
            PaymentMethodUniversalBankTransactionBeneficiaryAccount { bic: Some(bic), ..self }),
            !bic_shape(bic@) ==> r is Err && r->Err_0@ == "BIC "@ + bic@
                + " is not 8 or 11 alphanumeric characters!"@,
            self.wf() && r is Ok ==> r->Ok_0.wf(),
    {
        if !check_bic(bic) {
            return Err(field_message("BIC ", bic, " is not 8 or 11 alphanumeric characters!"));
        }
        Ok(PaymentMethodUniversalBankTransactionBeneficiaryAccount { bic: Some(bic), ..self })
    }

    /// The account number is unrestricted.
    pub fn with_bank_account_number(self, bank_account_number: &'a str) -> (r: Self)
        ensures
            r == (PaymentMethodUniversalBankTransactionBeneficiaryAccount {
                bank_account_number: Some(bank_account_number),
                ..self
            }),
            self.wf() ==> r.wf(),
    {
        PaymentMethodUniversalBankTransactionBeneficiaryAccount {
            bank_account_number: Some(bank_account_number),
            ..self
        }
    }

    /// Accepts at most 34 characters.
    pub fn with_iban(self, iban: &'a str) -> (r: Result<Self, String>)
        ensures
            iban@.len() <= 34 ==> r is Ok && r->Ok_0 == (
            PaymentMethodUniversalBankTransactionBeneficiaryAccount { iban: Some(iban), ..self }),
            iban@.len() > 34 ==> r is Err && r->Err_0@ == "IBAN "@ + iban@ + " is too long!"@,
            self.wf() && r is Ok ==> r->Ok_0.wf(),
    {
        if iban.unicode_len() > 34 {
            return Err(field_message("IBAN ", iban, " is too long!"));
        }
        Ok(PaymentMethodUniversalBankTransactionBeneficiaryAccount { iban: Some(iban), ..self })
    }

    /// Accepts at most 70 characters.
    pub fn with_bank_account_owner(self, bank_account_owner: &'a str) -> (r: Result<Self, String>)
        ensures
            bank_account_owner@.len() <= 70 ==> r is Ok && r->Ok_0 == (
            PaymentMethodUniversalBankTransactionBeneficiaryAccount {
                bank_account_owner: Some(bank_account_owner),
                ..self
            }),
            bank_account_owner@.len() > 70 ==> r is Err && r->Err_0@ == "BankAccountOwner "@
                + bank_account_owner@ + " is too long!"@,
            self.wf() && r is Ok ==> r->Ok_0.wf(),
    {
        if bank_account_owner.unicode_len() > 70 {
            return Err(field_message("BankAccountOwner ", bank_account_owner, " is too long!"));
        }
        Ok(
            PaymentMethodUniversalBankTransactionBeneficiaryAccount {
                bank_account_owner: Some(bank_account_owner),
                ..self
            },
        )
    }

    /// Renders this record; the result is exactly `spec_xml`.
    pub fn to_xml(&self) -> (r: String)
        ensures
            r@ == self.spec_xml(),
    {
        let mut body = opt_text_element("BankName", self.bank_name);
        match &self.bank_code {
            Some(bc) => {
                let x = bc.to_xml();
                body.append(x.as_str());
            },
            None => {
                proof {
                    assert(body@ + spec_opt_bank_code_xml(self.bank_code) =~= body@);
                }
            },
        }
        append_opt_text_element(&mut body, "BIC", self.bic);
        append_opt_text_element(&mut body, "BankAccountNr", self.bank_account_number);
        append_opt_text_element(&mut body, "IBAN", self.iban);
        append_opt_text_element(&mut body, "BankAccountOwner", self.bank_account_owner);
        let e = wrap_element("BeneficiaryAccount", "", body.as_str());
        proof {
            reveal_strlit("");
            assert(""@ =~= Seq::<char>::empty());
        }
        e
    }
}

impl<'a> Default for PaymentMethodUniversalBankTransactionBeneficiaryAccount<'a> {
    /// The default record: every field absent.
    fn default() -> (r: Self)
        ensures
            r == (PaymentMethodUniversalBankTransactionBeneficiaryAccount {
                bank_name: None,
                bank_code: None,
                bic: None,
                bank_account_number: None,
                iban: None,
                bank_account_owner: None,
            }),
    {
        PaymentMethodUniversalBankTransactionBeneficiaryAccount::new()
    }
}

/// The markup of a sequence of beneficiary accounts, in insertion order.
pub open spec fn spec_accounts_xml<'a>(
    accounts: Seq<PaymentMethodUniversalBankTransactionBeneficiaryAccount<'a>>,
) -> Seq<char>
    decreases accounts.len(),
{
    if accounts.len() == 0 {
        Seq::empty()
    } else {
        spec_accounts_xml(accounts.drop_last()) + accounts.last().spec_xml()
    }
}

/// The markup of an optional `PaymentReference` element: the reference as
/// text, the checksum as a `CheckSum` attribute only when one was set.
pub open spec fn spec_payment_reference_xml(
    payment_reference: Option<&str>,
    payment_reference_checksum: Option<&str>,
) -> Seq<char> {
    match payment_reference {
        Some(pr) => spec_element(
            "PaymentReference"@,
            match payment_reference_checksum {
                Some(cs) => spec_attr("CheckSum"@, cs@),
                None => Seq::empty(),
            },
            pr@,
        ),
        None => Seq::empty(),
    }
}

/// A universal bank transaction: a consolidator-payable flag (false by
/// default), beneficiary accounts in insertion order, and an optional
/// payment reference with an optional checksum.
#[derive(Debug)]
pub struct PaymentMethodUniversalBankTransaction<'a> {
    pub consolidator_payable: Option<bool>,
    pub beneficiary_account: Option<
        Vec<PaymentMethodUniversalBankTransactionBeneficiaryAccount<'a>>,
    >,
    pub payment_reference: Option<&'a str>,
    pub payment_reference_checksum: Option<&'a str>,
}

impl<'a> PaymentMethodUniversalBankTransaction<'a> {
    /// The field-local constraints the setters enforce.
    pub open spec fn wf(self) -> bool {
        self.payment_reference is Some ==> self.payment_reference->0@.len() <= 35
    }

    /// The markup this record renders to: a `UniversalBankTransaction`
    /// element whose `ConsolidatorPayable` attribute is always rendered as
    /// `true` or `false`, then each beneficiary account in insertion order,
    /// then the payment reference if one was set.
    pub open spec fn spec_xml(self) -> Seq<char> {
        spec_element(
            "UniversalBankTransaction"@,
            spec_attr("ConsolidatorPayable"@, spec_bool_text(self.consolidator_payable.unwrap_or(false))),
            (match self.beneficiary_account {
                Some(accounts) => spec_accounts_xml(accounts@),
                None => Seq::empty(),
            }) + spec_payment_reference_xml(
                self.payment_reference,
                self.payment_reference_checksum,
            ),
        )
    }

    pub fn new() -> (r: Self)
        ensures
            r == (PaymentMethodUniversalBankTransaction {
                consolidator_payable: None,
                beneficiary_account: None,
                payment_reference: None,
                payment_reference_checksum: None,
            }),
            r.wf(),
    {
        PaymentMethodUniversalBankTransaction {
            consolidator_payable: None,
            beneficiary_account: None,
            payment_reference: None,
            payment_reference_checksum: None,
        }
    }

    pub fn with_consolidator_payable(self, consolidator_payable: bool) -> (r: Self)
        ensures
            r == (PaymentMethodUniversalBankTransaction {
                consolidator_payable: Some(consolidator_payable),
                ..self
            }),
            self.wf() ==> r.wf(),
    {
        PaymentMethodUniversalBankTransaction {
            consolidator_payable: Some(consolidator_payable),
            ..self
        }
    }

    /// Appends one beneficiary account; insertion order is preserved.
    pub fn with_beneficiary_account(
        self,
        beneficiary_account: PaymentMethodUniversalBankTransactionBeneficiaryAccount<'a>,
    ) -> (r: Self)
        ensures
            r.consolidator_payable == self.consolidator_payable,
            r.payment_reference == self.payment_reference,
            r.payment_reference_checksum == self.payment_reference_checksum,
            r.beneficiary_account is Some,
            r.beneficiary_account->0@ == (match self.beneficiary_account {
                Some(accounts) => accounts@,
                None => Seq::empty(),
            }).push(beneficiary_account),
            self.wf() ==> r.wf(),
    {
        let mut accounts = match self.beneficiary_account {
            Some(accounts) => accounts,
            None => Vec::new(),
        };
        accounts.push(beneficiary_account);
        PaymentMethodUniversalBankTransaction { beneficiary_account: Some(accounts), ..self }
    }

    /// Accepts at most 35 characters.
    pub fn with_payment_reference(self, payment_reference: &'a str) -> (r: Result<Self, String>)
        ensures
            payment_reference@.len() <= 35 ==> r is Ok && r->Ok_0 == (
            PaymentMethodUniversalBankTransaction {
                payment_reference: Some(payment_reference),
                ..self
            }),
            payment_reference@.len() > 35 ==> r is Err && r->Err_0@ == "PaymentReference "@
                + payment_reference@ + " is too long!"@,
            self.wf() && r is Ok ==> r->Ok_0.wf(),
    {
        if payment_reference.unicode_len() > 35 {
            return Err(field_message("PaymentReference ", payment_reference, " is too long!"));
        }
        Ok(PaymentMethodUniversalBankTransaction { payment_reference: Some(payment_reference), ..self })
    }

    /// The checksum is unrestricted; it is rendered only beside a payment
    /// reference.
    pub fn with_payment_reference_checksum(self, payment_reference_checksum: &'a str) -> (r: Self)
        ensures
            r == (PaymentMethodUniversalBankTransaction {
                payment_reference_checksum: Some(payment_reference_checksum),
                ..self
            }),
            self.wf() ==> r.wf(),
    {
        PaymentMethodUniversalBankTransaction {
            payment_reference_checksum: Some(payment_reference_checksum),
            ..self
        }
    }

    /// Renders this record; the result is exactly `spec_xml`.
    pub fn to_xml(&self) -> (r: String)
        ensures
            r@ == self.spec_xml(),
    {
        let flag = match self.consolidator_payable {
            Some(b) => b,
            None => false,
        };
        let attrs = attr_text("ConsolidatorPayable", bool_text(flag));
        let mut body = String::new();
        match &self.beneficiary_account {
            Some(accounts) => {
                let n = accounts.len();
                let mut i: usize = 0;
                proof {
                    assert(accounts@.take(0) =~= Seq::empty());
                }
                while i < n
                    invariant
                        n == accounts@.len(),
                        i <= n,
                        body@ == spec_accounts_xml(accounts@.take(i as int)),
                    decreases n - i,
                {
                    let x = accounts[i].to_xml();
                    body.append(x.as_str());
                    proof {
                        assert(accounts@.take(i + 1 as int).drop_last() =~= accounts@.take(
                            i as int,
                        ));
                        assert(accounts@.take(i + 1 as int).last() == accounts@[i as int]);
                    }
                    i += 1;
                }
                proof {
                    assert(accounts@.take(n as int) =~= accounts@);
                }
            },
            None => {},
        }
        match self.payment_reference {
            Some(pr) => {
                let pr_attrs = match self.payment_reference_checksum {
                    Some(cs) => attr_text("CheckSum", cs),
                    None => String::new(),
                };
                let el = wrap_element("PaymentReference", pr_attrs.as_str(), pr);
                body.append(el.as_str());
            },
            None => {
                proof {
                    assert(body@ + spec_payment_reference_xml(
                        self.payment_reference,
                        self.payment_reference_checksum,
                    ) =~= body@);
                }
            },
        }
        let e = wrap_element("UniversalBankTransaction", attrs.as_str(), body.as_str());
        proof {
            assert(e@ =~= self.spec_xml());
        }
        e
    }
}

impl<'a> Default for PaymentMethodUniversalBankTransaction<'a> {
    /// The default record: every field absent.
    fn default() -> (r: Self)
        ensures
            r == (PaymentMethodUniversalBankTransaction {
                consolidator_payable: None,
                beneficiary_account: None,
                payment_reference: None,
                payment_reference_checksum: None,
            }),
    {
        PaymentMethodUniversalBankTransaction::new()
    }
}

/// A payment card. The primary account number is required at construction
/// and must already be masked: at most the first 6 and last 4 digits, joined
/// by a literal `*`.
#[derive(Debug)]
pub struct PaymentMethodPaymentCard<'a> {
    pub primary_account_number: &'a str,
    pub card_holder_name: Option<&'a str>,
}

impl<'a> PaymentMethodPaymentCard<'a> {
    /// The constraint the constructor enforces.
    pub open spec fn wf(self) -> bool {
        masked_pan_shape(self.primary_account_number@)
    }

    /// The markup this record renders to: a `PaymentCard` element with the
    /// masked number always present and the holder name only when set.
    pub open spec fn spec_xml(self) -> Seq<char> {
        spec_element(
            "PaymentCard"@,
            Seq::empty(),
            spec_text_element("PrimaryAccountNumber"@, self.primary_account_number@)
                + spec_opt_text_element("CardHolderName"@, self.card_holder_name),
        )
    }

    /// Accepts exactly the masked shape; anything else is rejected.
    pub fn new(primary_account_number: &'a str) -> (r: Result<Self, String>)
        ensures
            masked_pan_shape(primary_account_number@) ==> r is Ok && r->Ok_0 == (
            PaymentMethodPaymentCard { primary_account_number, card_holder_name: None }),
            !masked_pan_shape(primary_account_number@) ==> r is Err && r->Err_0@
                == "Invalid primary account number \""@ + primary_account_number@
                + "\". Only provide at most the first 6 and last 4 digits, separated with a \"*\"."@,
            r is Ok ==> r->Ok_0.wf(),
    {
        if !check_masked_pan(primary_account_number) {
            return Err(
                field_message(
                    "Invalid primary account number \"",
                    primary_account_number,
                    "\". Only provide at most the first 6 and last 4 digits, separated with a \"*\".",
                ),
            );
        }
        Ok(PaymentMethodPaymentCard { primary_account_number, card_holder_name: None })
    }

    pub fn with_card_holder_name(self, card_holder_name: &'a str) -> (r: Self)
        ensures
            r == (PaymentMethodPaymentCard { card_holder_name: Some(card_holder_name), ..self }),
            self.wf() ==> r.wf(),
    {
        PaymentMethodPaymentCard { card_holder_name: Some(card_holder_name), ..self }
    }

    /// Renders this record; the result is exactly `spec_xml`.
    pub fn to_xml(&self) -> (r: String)
        ensures
            r@ == self.spec_xml(),
    {
        let mut body = text_element("PrimaryAccountNumber", self.primary_account_number);
        append_opt_text_element(&mut body, "CardHolderName", self.card_holder_name);
        let e = wrap_element("PaymentCard", "", body.as_str());
        proof {
            reveal_strlit("");
            assert(""@ =~= Seq::<char>::empty());
        }
        e
    }
}

/// The closed choice of payment representations; exactly one is active.
#[derive(Debug)]
pub enum PaymentMethodType<'a> {
    NoPayment,
    SEPADirectDebit(PaymentMethodSEPADirectDebit<'a>),
    UniversalBankTransactionBeneficiaryAccount(
        PaymentMethodUniversalBankTransactionBeneficiaryAccount<'a>,
    ),
    UniversalBankTransaction(PaymentMethodUniversalBankTransaction<'a>),
    PaymentCard(PaymentMethodPaymentCard<'a>),
    OtherPayment,
}

impl<'a> PaymentMethodType<'a> {
    /// The markup of the active variant: the markers render as empty
    /// elements, every record variant as its own fragment.
    pub open spec fn spec_xml(self) -> Seq<char> {
        match self {
            PaymentMethodType::NoPayment => spec_element("NoPayment"@, Seq::empty(), Seq::empty()),
            PaymentMethodType::SEPADirectDebit(p) => p.spec_xml(),
            PaymentMethodType::UniversalBankTransactionBeneficiaryAccount(p) => p.spec_xml(),
            PaymentMethodType::UniversalBankTransaction(p) => p.spec_xml(),
            PaymentMethodType::PaymentCard(p) => p.spec_xml(),
            PaymentMethodType::OtherPayment => spec_element(
                "OtherPayment"@,
                Seq::empty(),
                Seq::empty(),
            ),
        }
    }

    /// Renders the active variant; the result is exactly `spec_xml`.
    pub fn to_xml(&self) -> (r: String)
        ensures
            r@ == self.spec_xml(),
    {
        match self {
            PaymentMethodType::NoPayment => empty_element("NoPayment"),
            PaymentMethodType::SEPADirectDebit(p) => p.to_xml(),
            PaymentMethodType::UniversalBankTransactionBeneficiaryAccount(p) => p.to_xml(),
            PaymentMethodType::UniversalBankTransaction(p) => p.to_xml(),
            PaymentMethodType::PaymentCard(p) => p.to_xml(),
            PaymentMethodType::OtherPayment => empty_element("OtherPayment"),
        }
    }
}

impl<'a> Default for PaymentMethodType<'a> {
    /// The default variant is `NoPayment`.
    fn default() -> (r: Self)
        ensures
            r is NoPayment,
    {
        PaymentMethodType::NoPayment
    }
}

/// The top-level payment-method record: an optional free-text comment and
/// the active variant, `NoPayment` by default.
#[derive(Debug)]
pub struct PaymentMethod<'a> {
    pub comment: Option<&'a str>,
    pub method: PaymentMethodType<'a>,
}

impl<'a> PaymentMethod<'a> {
    /// The markup this record renders to: a `PaymentMethod` element holding
    /// the optional comment first, then the active variant's fragment.
    pub open spec fn spec_xml(self) -> Seq<char> {
        spec_element(
            "PaymentMethod"@,
            Seq::empty(),
            spec_opt_text_element("Comment"@, self.comment) + self.method.spec_xml(),
        )
    }

    pub fn no_payment() -> (r: PaymentMethod<'a>)
        ensures
            r == (PaymentMethod { comment: None, method: PaymentMethodType::NoPayment }),
    {
        PaymentMethod { comment: None, method: PaymentMethodType::NoPayment }
    }

    pub fn sepa_direct_debit(sepa_direct_debit: PaymentMethodSEPADirectDebit<'a>) -> (r:
        PaymentMethod<'a>)
        ensures
            r == (PaymentMethod {
                comment: None,
                method: PaymentMethodType::SEPADirectDebit(sepa_direct_debit),
            }),
    {
        PaymentMethod { comment: None, method: PaymentMethodType::SEPADirectDebit(sepa_direct_debit) }
    }

    pub fn universal_bank_transaction(
        universal_bank_transaction: PaymentMethodUniversalBankTransaction<'a>,
    ) -> (r: PaymentMethod<'a>)
        ensures
            r == (PaymentMethod {
                comment: None,
                method: PaymentMethodType::UniversalBankTransaction(universal_bank_transaction),
            }),
    {
        PaymentMethod {
            comment: None,
            method: PaymentMethodType::UniversalBankTransaction(universal_bank_transaction),
        }
    }

    pub fn universal_bank_transaction_beneficiary_account(
        universal_bank_transaction_beneficiary_account: PaymentMethodUniversalBankTransactionBeneficiaryAccount<
            'a,
        >,
    ) -> (r: PaymentMethod<'a>)
        ensures
            r == (PaymentMethod {
                comment: None,
                method: PaymentMethodType::UniversalBankTransactionBeneficiaryAccount(
                    universal_bank_transaction_beneficiary_account,
                ),
            }),
    {
        PaymentMethod {
            comment: None,
            method: PaymentMethodType::UniversalBankTransactionBeneficiaryAccount(
                universal_bank_transaction_beneficiary_account,
            ),
        }
    }

    pub fn payment_card(payment_card: PaymentMethodPaymentCard<'a>) -> (r: PaymentMethod<'a>)
        ensures
            r == (PaymentMethod {
                comment: None,
                method: PaymentMethodType::PaymentCard(payment_card),
            }),
    {
        PaymentMethod { comment: None, method: PaymentMethodType::PaymentCard(payment_card) }
    }

    pub fn other_payment() -> (r: PaymentMethod<'a>)
        ensures
            r == (PaymentMethod { comment: None, method: PaymentMethodType::OtherPayment }),
    {
        PaymentMethod { comment: None, method: PaymentMethodType::OtherPayment }
    }

    /// The comment is unrestricted; it renders first inside the wrapper.
    pub fn with_comment(self, comment: &'a str) -> (r: Self)
        ensures
            r == (PaymentMethod { comment: Some(comment), ..self }),
    {
        PaymentMethod { comment: Some(comment), ..self }
    }

    /// Renders the whole record; the result is exactly `spec_xml`.
    pub fn to_xml(&self) -> (r: String)
        ensures
            r@ == self.spec_xml(),
    {
        let mut body = opt_text_element("Comment", self.comment);
        let m = self.method.to_xml();
        body.append(m.as_str());
        let e = wrap_element("PaymentMethod", "", body.as_str());
        proof {
            reveal_strlit("");
            assert(""@ =~= Seq::<char>::empty());
        }
        e
    }
}

impl<'a> Default for PaymentMethod<'a> {
    /// The default record: no comment, `NoPayment` active.
    fn default() -> (r: Self)
        ensures
            r == (PaymentMethod { comment: None, method: PaymentMethodType::NoPayment }),
    {
        PaymentMethod { comment: None, method: PaymentMethodType::NoPayment }
    }
}

} // verus!
