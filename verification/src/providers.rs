//! The providers: for each site, the page of each greeting and the place of
//! the pictures on a page.
pub mod augurando;
pub mod buongiornissimo_caffe;
pub mod buongiorno_immagini;
pub mod ilmondodigrazia;
pub mod ticondivido;

pub use augurando::Augurando;
pub use buongiornissimo_caffe::BuongiornissimoCaffe;
pub use buongiorno_immagini::BuongiornoImmagini;
pub use ilmondodigrazia::IlMondoDiGrazia;
pub use ticondivido::TiCondivido;
