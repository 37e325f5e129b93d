pub mod osgmg;
