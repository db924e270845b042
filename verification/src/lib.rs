//! Validation, decision and voucher-building rules of the regnmed ledger
//! persistence layer, stated over plain values and proved with Verus.

pub mod tekst;
pub mod dato;
pub mod bilag;
pub mod ledger;
pub mod reskontro;
pub mod saft_import;
pub mod medlemmer;
pub mod byramedlemmer;
pub mod ehf;
pub mod attachment;
pub mod invoice;
pub mod lonn;
pub mod invoice_template;
pub mod anchor;
pub mod revisjon;
pub mod saft;
pub mod abonnement;
pub mod asset;
pub mod aksjebok;
pub mod product;
pub mod regnskap;
pub mod arsavslutning;
pub mod betaling;
pub mod budsjett;
pub mod dimension;
pub mod epost;
pub mod salgsdokument;
pub mod kassa;
pub mod attestering;
pub mod kontoplan;
pub mod innboks;
pub mod migrering;
pub mod ocr;
pub mod opening;
pub mod period;
pub mod mva;
pub mod balansedok;
pub mod bank;
pub mod tenancy;
pub mod engagement;
pub mod roller;
pub mod settings;
pub mod plattform;
pub mod purring;
pub mod periodisering;
pub mod abonnement_oppfolging;
pub mod integrasjon;
pub mod marketplace;
