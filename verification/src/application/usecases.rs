//! The use cases of the service. Each one is a sequence of calls to the image
//! repository and to the marketplace, written here as a flow: from the state
//! reached and the result of the last call, the flow gives the next state and
//! the next call to make. The caller makes the calls and reports their results.

use vstd::prelude::*;
use std::sync::Arc;
use crate::application::error::UseCasesError;
use crate::domain::error::DomainError;
use crate::domain::property::{Property, PropertyView};
use crate::domain::vehicle::{Vehicle, VehicleView};

verus! {

// ─── Listings and their photos ───────────────────────────────────────────────

/// Something that is published with photos.
pub trait Listing: Sized + View {
    /// The photos of a listing.
    spec fn photos_of(v: Self::V) -> Seq<Seq<char>>;

    /// The listing `v` with its photos replaced by `photos`.
    spec fn with_photos(v: Self::V, photos: Seq<Seq<char>>) -> Self::V;

    /// A copy of the photo locations.
    fn photos(&self) -> (r: Vec<String>)
        ensures
            r.deep_view() == Self::photos_of(self@);

    /// Replaces the photos, keeping everything else.
    fn replace_photos(&mut self, photos: Vec<String>)
        ensures
            final(self)@ == Self::with_photos(old(self)@, photos.deep_view());
}

fn copy_strings(v: &Vec<String>) -> (r: Vec<String>)
    ensures
        r.deep_view() == v.deep_view(),
{
    let mut r: Vec<String> = Vec::new();
    let mut i: usize = 0;
    while i < v.len()
        invariant
            i <= v@.len(),
            r@ == v@.take(i as int),
        decreases v@.len() - i,
    {
        let s: String = v[i].clone();
        r.push(s);
        assert(r@ =~= v@.take(i + 1));
        i = i + 1;
    }
    assert(r@ =~= v@);
    assert(r.deep_view() =~= v.deep_view());
    r
}

impl Listing for Property {
    open spec fn photos_of(v: PropertyView) -> Seq<Seq<char>> {
        v.image
    }

    open spec fn with_photos(v: PropertyView, photos: Seq<Seq<char>>) -> PropertyView {
        PropertyView { image: photos, ..v }
    }

    fn photos(&self) -> (r: Vec<String>) {
        copy_strings(self.image())
    }

    fn replace_photos(&mut self, photos: Vec<String>) {
        self.set_image(photos);
    }
}

impl Listing for Vehicle {
    open spec fn photos_of(v: VehicleView) -> Seq<Seq<char>> {
        v.image
    }

    open spec fn with_photos(v: VehicleView, photos: Seq<Seq<char>>) -> VehicleView {
        VehicleView { image: photos, ..v }
    }

    fn photos(&self) -> (r: Vec<String>) {
        copy_strings(self.image())
    }

    fn replace_photos(&mut self, photos: Vec<String>) {
        self.set_image(photos);
    }
}

/// Replacing a property's photos and reading them back gives the new photos;
/// putting back the photos it had gives the property it was.
pub proof fn lemma_property_photos_round_trip(v: PropertyView, photos: Seq<Seq<char>>)
    ensures
        Property::photos_of(Property::with_photos(v, photos)) == photos,
        Property::with_photos(v, Property::photos_of(v)) == v,
{
}

/// Replacing a vehicle's photos and reading them back gives the new photos;
/// putting back the photos it had gives the vehicle it was.
pub proof fn lemma_vehicle_photos_round_trip(v: VehicleView, photos: Seq<Seq<char>>)
    ensures
        Vehicle::photos_of(Vehicle::with_photos(v, photos)) == photos,
        Vehicle::with_photos(v, Vehicle::photos_of(v)) == v,
{
}

// ─── Publishing a listing ────────────────────────────────────────────────────

/// Where a publication stands.
pub enum PublishFlow<E> {
    /// The photos are being stored; the listing and the client wait here.
    StoringPhotos { client_id: String, listing: E },
    /// The listing is being published.
    Publishing,
    /// The stored photos are being removed.
    RemovingPhotos,
    /// Nothing is left to do.
    Done,
}

/// The next call to make.
pub enum PublishAction<E> {
    /// Store the photos at these locations; report `PhotosStored`.
    StorePhotos(Vec<String>),
    /// Publish this listing for this client; report `Published`.
    Publish { listing: E, client_id: String },
    /// Remove the stored photos; report `PhotosRemoved`.
    RemovePhotos,
    /// The use case ends with this answer.
    Finish(Result<(), UseCasesError>),
}

/// The result of the last call.
pub enum PublishEvent {
    /// The photos were stored; these are the local files that hold them.
    PhotosStored(Vec<String>),
    /// The marketplace answered the publication.
    Published(Result<(), DomainError>),
    /// The stored photos were removed.
    PhotosRemoved,
}

/// The contents of a `PublishFlow`.
pub enum PublishFlowView<V> {
    StoringPhotos { client_id: Seq<char>, listing: V },
    Publishing,
    RemovingPhotos,
    Done,
}

/// The contents of a `PublishAction`.
pub enum PublishActionView<V> {
    StorePhotos(Seq<Seq<char>>),
    Publish { listing: V, client_id: Seq<char> },
    RemovePhotos,
    Finish(Result<(), UseCasesError>),
}

/// The contents of a `PublishEvent`.
pub enum PublishEventView {
    PhotosStored(Seq<Seq<char>>),
    Published(Result<(), DomainError>),
    PhotosRemoved,
}

impl<E: View> View for PublishFlow<E> {
    type V = PublishFlowView<E::V>;

    open spec fn view(&self) -> PublishFlowView<E::V> {
        match self {
            PublishFlow::StoringPhotos { client_id, listing } => PublishFlowView::StoringPhotos {
                client_id: client_id@,
                listing: listing@,
            },
            PublishFlow::Publishing => PublishFlowView::Publishing,
            PublishFlow::RemovingPhotos => PublishFlowView::RemovingPhotos,
            PublishFlow::Done => PublishFlowView::Done,
        }
    }
}

impl<E: View> View for PublishAction<E> {
    type V = PublishActionView<E::V>;

    open spec fn view(&self) -> PublishActionView<E::V> {
        match self {
            PublishAction::StorePhotos(urls) => PublishActionView::StorePhotos(urls.deep_view()),
            PublishAction::Publish { listing, client_id } => PublishActionView::Publish {
                listing: listing@,
                client_id: client_id@,
            },
            PublishAction::RemovePhotos => PublishActionView::RemovePhotos,
            PublishAction::Finish(answer) => PublishActionView::Finish(*answer),
        }
    }
}

impl View for PublishEvent {
    type V = PublishEventView;

    open spec fn view(&self) -> PublishEventView {
        match self {
            PublishEvent::PhotosStored(files) => PublishEventView::PhotosStored(files.deep_view()),
            PublishEvent::Published(answer) => PublishEventView::Published(*answer),
            PublishEvent::PhotosRemoved => PublishEventView::PhotosRemoved,
        }
    }
}

/// The result that a publication waits for in state `flow`.
pub open spec fn expects<V>(flow: PublishFlowView<V>, event: PublishEventView) -> bool {
    match flow {
        PublishFlowView::StoringPhotos { .. } => event is PhotosStored,
        PublishFlowView::Publishing => event is Published,
        PublishFlowView::RemovingPhotos => event is PhotosRemoved,
        PublishFlowView::Done => false,
    }
}

/// The first state and call of a publication.
pub open spec fn publication_start<E: Listing>(client_id: Seq<char>, listing: E::V) -> (
    PublishFlowView<E::V>,
    PublishActionView<E::V>,
) {
    (
        PublishFlowView::StoringPhotos { client_id, listing },
        PublishActionView::StorePhotos(E::photos_of(listing)),
    )
}

/// One step of a publication: the stored photos replace the listing's photos
/// before it is published; a refused publication ends with its failure as a
/// domain failure and the photos left in place; an accepted one has the
/// photos removed, then ends well.
pub open spec fn publication_step<E: Listing>(flow: PublishFlowView<E::V>, event: PublishEventView) -> (
    PublishFlowView<E::V>,
    PublishActionView<E::V>,
) {
    match (flow, event) {
        (PublishFlowView::StoringPhotos { client_id, listing }, PublishEventView::PhotosStored(files)) => (
            PublishFlowView::Publishing,
            PublishActionView::Publish { listing: E::with_photos(listing, files), client_id },
        ),
        (PublishFlowView::Publishing, PublishEventView::Published(Ok(()))) => (
            PublishFlowView::RemovingPhotos,
            PublishActionView::RemovePhotos,
        ),
        (PublishFlowView::Publishing, PublishEventView::Published(Err(e))) => (
            PublishFlowView::Done,
            PublishActionView::Finish(Err(UseCasesError::Domain(e))),
        ),
        (_, _) => (PublishFlowView::Done, PublishActionView::Finish(Ok(()))),
    }
}

impl<E: View> PublishFlow<E> {
    /// The result that the flow waits for in this state.
    pub open spec fn expects(&self, event: &PublishEvent) -> bool {
        expects(self@, event@)
    }

    /// Whether the flow waits for `event` in this state.
    pub fn waits_for(&self, event: &PublishEvent) -> (r: bool)
        ensures
            r == self.expects(event),
    {
        match (self, event) {
            (PublishFlow::StoringPhotos { .. }, PublishEvent::PhotosStored(_)) => true,
            (PublishFlow::Publishing, PublishEvent::Published(_)) => true,
            (PublishFlow::RemovingPhotos, PublishEvent::PhotosRemoved) => true,
            _ => false,
        }
    }
}

/// The publication of `listing` for `client_id` begins by storing its photos.
pub fn start_publication<E: Listing>(client_id: String, listing: E) -> (r: (PublishFlow<E>, PublishAction<E>))
    ensures
        (r.0@, r.1@) == publication_start::<E>(client_id@, listing@),
{
    let urls = listing.photos();
    (PublishFlow::StoringPhotos { client_id, listing }, PublishAction::StorePhotos(urls))
}

/// One step of a publication, as `publication_step` describes it.
pub fn advance_publication<E: Listing>(flow: PublishFlow<E>, event: PublishEvent) -> (r: (PublishFlow<E>, PublishAction<E>))
    requires
        flow.expects(&event),
    ensures
        (r.0@, r.1@) == publication_step::<E>(flow@, event@),
{
    match flow {
        PublishFlow::StoringPhotos { client_id, listing } => {
            match event {
                PublishEvent::PhotosStored(files) => {
                    let mut listing = listing;
                    listing.replace_photos(files);
                    (PublishFlow::Publishing, PublishAction::Publish { listing, client_id })
                },
                _ => (PublishFlow::Done, PublishAction::Finish(Ok(()))),
            }
        },
        PublishFlow::Publishing => {
            match event {
                PublishEvent::Published(Ok(())) => (PublishFlow::RemovingPhotos, PublishAction::RemovePhotos),
                PublishEvent::Published(Err(e)) => (PublishFlow::Done, PublishAction::Finish(Err(UseCasesError::from(e)))),
                _ => (PublishFlow::Done, PublishAction::Finish(Ok(()))),
            }
        },
        _ => (PublishFlow::Done, PublishAction::Finish(Ok(()))),
    }
}

/// A whole publication: the repository is asked to store the listing's own
/// photos; the marketplace receives the listing carrying exactly the stored
/// files and nothing else changed; when the marketplace accepts, the stored
/// photos are removed and the use case ends well; when it refuses, the use
/// case ends with that refusal as a domain failure, without removing them.
pub proof fn lemma_publication_run<E: Listing>(
    client_id: Seq<char>,
    listing: E::V,
    files: Seq<Seq<char>>,
    answer: Result<(), DomainError>,
)
    ensures
        ({
            let (s0, a0) = publication_start::<E>(client_id, listing);
            let (s1, a1) = publication_step::<E>(s0, PublishEventView::PhotosStored(files));
            let (s2, a2) = publication_step::<E>(s1, PublishEventView::Published(answer));
            &&& a0 == PublishActionView::<E::V>::StorePhotos(E::photos_of(listing))
            &&& a1 == PublishActionView::Publish { listing: E::with_photos(listing, files), client_id }
            &&& answer is Ok ==> {
                &&& a2 == PublishActionView::<E::V>::RemovePhotos
                &&& publication_step::<E>(s2, PublishEventView::PhotosRemoved).1
                    == PublishActionView::<E::V>::Finish(Ok(()))
            }
            &&& answer matches Err(e) ==> a2 == PublishActionView::<E::V>::Finish(
                Err(UseCasesError::Domain(e)),
            ) && s2 is Done
        }),
{
}

/// Publishes a home: its photos are stored, the home is published with the
/// stored copies, and the copies are removed once the publication went through.
pub struct AddPropertyUseCase<I, W> {
    image_repository: Arc<I>,
    webscraping_marketplace_service: Arc<W>,
}

impl<I, W> AddPropertyUseCase<I, W> {
    pub closed spec fn repository(&self) -> Arc<I> {
        self.image_repository
    }

    pub closed spec fn marketplace(&self) -> Arc<W> {
        self.webscraping_marketplace_service
    }

    pub fn new(image_repository: Arc<I>, webscraping_marketplace_service: Arc<W>) -> (r: Self)
        ensures
            r.repository() == image_repository,
            r.marketplace() == webscraping_marketplace_service,
    {
        AddPropertyUseCase { image_repository, webscraping_marketplace_service }
    }

    pub fn image_repository(&self) -> (r: &Arc<I>)
        ensures
            *r == self.repository(),
    {
        &self.image_repository
    }

    pub fn webscraping_marketplace_service(&self) -> (r: &Arc<W>)
        ensures
            *r == self.marketplace(),
    {
        &self.webscraping_marketplace_service
    }

    /// Begins publishing `property` for `client_id`.
    pub fn start(&self, client_id: String, property: Property) -> (r: (PublishFlow<Property>, PublishAction<Property>))
        ensures
            (r.0@, r.1@) == publication_start::<Property>(client_id@, property@),
    {
        start_publication(client_id, property)
    }
}

/// Publishes a vehicle: its photos are stored, the vehicle is published with
/// the stored copies, and the copies are removed once the publication went through.
pub struct AddVehicleUseCase<I, W> {
    image_repository: Arc<I>,
    webscraping_marketplace_service: Arc<W>,
}

impl<I, W> AddVehicleUseCase<I, W> {
    pub closed spec fn repository(&self) -> Arc<I> {
        self.image_repository
    }

    pub closed spec fn marketplace(&self) -> Arc<W> {
        self.webscraping_marketplace_service
    }

    pub fn new(image_repository: Arc<I>, webscraping_marketplace_service: Arc<W>) -> (r: Self)
        ensures
            r.repository() == image_repository,
            r.marketplace() == webscraping_marketplace_service,
    {
        AddVehicleUseCase { image_repository, webscraping_marketplace_service }
    }

    pub fn image_repository(&self) -> (r: &Arc<I>)
        ensures
            *r == self.repository(),
    {
        &self.image_repository
    }

    pub fn webscraping_marketplace_service(&self) -> (r: &Arc<W>)
        ensures
            *r == self.marketplace(),
    {
        &self.webscraping_marketplace_service
    }

    /// Begins publishing `vehicle` for `client_id`.
    pub fn start(&self, client_id: String, vehicle: Vehicle) -> (r: (PublishFlow<Vehicle>, PublishAction<Vehicle>))
        ensures
            (r.0@, r.1@) == publication_start::<Vehicle>(client_id@, vehicle@),
    {
        start_publication(client_id, vehicle)
    }
}

// ─── Single-call use cases ───────────────────────────────────────────────────

/// The answer of a use case whose only step is one call to the marketplace:
/// its value when it succeeded, its failure as a domain failure otherwise.
pub open spec fn passed_on<T>(answer: Result<T, DomainError>) -> Result<T, UseCasesError> {
    match answer {
        Ok(v) => Ok(v),
        Err(e) => Err(UseCasesError::Domain(e)),
    }
}

fn pass_on<T>(answer: Result<T, DomainError>) -> (r: Result<T, UseCasesError>)
    ensures
        r == passed_on(answer),
{
    match answer {
        Ok(v) => Ok(v),
        Err(e) => Err(UseCasesError::from(e)),
    }
}

/// Tells whether the client is signed in on the marketplace.
pub struct GetMarketplaceUseCase<W> {
    webscraping_marketplace_service: Arc<W>,
}

impl<W> GetMarketplaceUseCase<W> {
    pub closed spec fn marketplace(&self) -> Arc<W> {
        self.webscraping_marketplace_service
    }

    pub fn new(webscraping_marketplace_service: Arc<W>) -> (r: Self)
        ensures
            r.marketplace() == webscraping_marketplace_service,
    {
        GetMarketplaceUseCase { webscraping_marketplace_service }
    }

    pub fn webscraping_marketplace_service(&self) -> (r: &Arc<W>)
        ensures
            *r == self.marketplace(),
    {
        &self.webscraping_marketplace_service
    }

    /// The answer, given the marketplace's answer to the account check.
    pub fn complete(&self, answer: Result<bool, DomainError>) -> (r: Result<bool, UseCasesError>)
        ensures
            r == passed_on(answer),
    {
        pass_on(answer)
    }
}

/// Renews every listing that can be renewed and tells how many were.
pub struct RenewListingsUseCase<W> {
    webscraping_marketplace_service: Arc<W>,
}

impl<W> RenewListingsUseCase<W> {
    pub closed spec fn marketplace(&self) -> Arc<W> {
        self.webscraping_marketplace_service
    }

    pub fn new(webscraping_marketplace_service: Arc<W>) -> (r: Self)
        ensures
            r.marketplace() == webscraping_marketplace_service,
    {
        RenewListingsUseCase { webscraping_marketplace_service }
    }

    pub fn webscraping_marketplace_service(&self) -> (r: &Arc<W>)
        ensures
            *r == self.marketplace(),
    {
        &self.webscraping_marketplace_service
    }

    /// The answer, given the marketplace's count of renewed listings.
    pub fn complete(&self, answer: Result<u32, DomainError>) -> (r: Result<u32, UseCasesError>)
        ensures
            r == passed_on(answer),
    {
        pass_on(answer)
    }
}

/// Signs the client out of the marketplace.
pub struct SignOutMarketplaceUseCase<W> {
    webscraping_marketplace_service: Arc<W>,
}

impl<W> SignOutMarketplaceUseCase<W> {
    pub closed spec fn marketplace(&self) -> Arc<W> {
        self.webscraping_marketplace_service
    }

    pub fn new(webscraping_marketplace_service: Arc<W>) -> (r: Self)
        ensures
            r.marketplace() == webscraping_marketplace_service,
    {
        SignOutMarketplaceUseCase { webscraping_marketplace_service }
    }

    pub fn webscraping_marketplace_service(&self) -> (r: &Arc<W>)
        ensures
            *r == self.marketplace(),
    {
        &self.webscraping_marketplace_service
    }

    /// The answer, given the marketplace's answer to the sign-out.
    pub fn complete(&self, answer: Result<(), DomainError>) -> (r: Result<(), UseCasesError>)
        ensures
            r == passed_on(answer),
    {
        pass_on(answer)
    }
}

/// Opens the marketplace's sign-in page and waits for the client to sign in.
pub struct SignInMarketplaceUseCase<W> {
    webscraping_marketplace_service: Arc<W>,
}

impl<W> SignInMarketplaceUseCase<W> {
    pub closed spec fn marketplace(&self) -> Arc<W> {
        self.webscraping_marketplace_service
    }

    pub fn new(webscraping_marketplace_service: Arc<W>) -> (r: Self)
        ensures
            r.marketplace() == webscraping_marketplace_service,
    {
        SignInMarketplaceUseCase { webscraping_marketplace_service }
    }

    pub fn webscraping_marketplace_service(&self) -> (r: &Arc<W>)
        ensures
            *r == self.marketplace(),
    {
        &self.webscraping_marketplace_service
    }

    /// The answer, given the marketplace's answer to the sign-in.
    pub fn complete(&self, answer: Result<(), DomainError>) -> (r: Result<(), UseCasesError>)
        ensures
            r == passed_on(answer),
    {
        pass_on(answer)
    }
}

} // verus!
